//! The annotation builder: a message with optional position parameters,
//! serialized into one of three layouts depending on which parameters are
//! present.

use vstd::prelude::*;
use vstd::string::StringExecFns;
use crate::encode::{dec_digits, push_dec};
use crate::ContractViolation;

verus! {

/// The abstract state of an [`Annotation`] builder.
pub struct AnnotationView {
    pub message: Seq<char>,
    pub length: Option<usize>,
    pub coords: Option<(usize, usize)>,
    pub hidden: bool,
}

/// Coordinates are only meaningful together with a length; coordinates
/// without one are a contract violation, not a serializable state.
pub open spec fn annotation_valid(v: AnnotationView) -> bool {
    !(v.coords is Some && v.length is None)
}

/// The value part of the annotation sequence, one of three layouts:
/// the message alone, `length|message`, or `message|length|x|y`.
/// Coordinates without a length have no defined layout.
pub open spec fn annotation_value(v: AnnotationView) -> Seq<char> {
    match (v.length, v.coords) {
        (None, None) => v.message,
        (Some(l), None) => dec_digits(l as nat) + "|"@ + v.message,
        (Some(l), Some(c)) => v.message + "|"@ + dec_digits(l as nat) + "|"@ + dec_digits(
            c.0 as nat,
        ) + "|"@ + dec_digits(c.1 as nat),
        (None, Some(_)) => Seq::empty(),
    }
}

/// The key under which the annotation is emitted.
pub open spec fn annotation_key(hidden: bool) -> Seq<char> {
    if hidden {
        "AddHiddenAnnotation"@
    } else {
        "AddAnnotation"@
    }
}

/// The full escape sequence: `ESC ] 1337 ;`, the key, `=`, the value, `BEL`.
pub open spec fn annotation_text(v: AnnotationView) -> Seq<char> {
    "\u{1b}]1337;"@ + annotation_key(v.hidden) + "="@ + annotation_value(v) + "\u{7}"@
}

/// A builder for terminal annotations.
pub struct Annotation {
    message: String,
    length: Option<usize>,
    coords: Option<(usize, usize)>,
    hidden: bool,
}

impl View for Annotation {
    type V = AnnotationView;

    closed spec fn view(&self) -> AnnotationView {
        AnnotationView {
            message: self.message@,
            length: self.length,
            coords: self.coords,
            hidden: self.hidden,
        }
    }
}

impl Annotation {
    /// Creates a new annotation with the given text, not hidden, with no
    /// length and no coordinates.
    pub fn new(message: &str) -> (r: Self)
        ensures
            r@ == (AnnotationView {
                message: message@,
                length: None,
                coords: None,
                hidden: false,
            }),
    {
        Annotation { message: message.to_owned(), length: None, coords: None, hidden: false }
    }

    /// Sets the length of the annotation.
    pub fn length(self, length: usize) -> (r: Self)
        ensures
            r@ == (AnnotationView { length: Some(length), ..self@ }),
    {
        Annotation { length: Some(length), ..self }
    }

    /// Sets the coordinates of the annotation; both are always set together.
    pub fn coords(self, x: usize, y: usize) -> (r: Self)
        ensures
            r@ == (AnnotationView { coords: Some((x, y)), ..self@ }),
    {
        Annotation { coords: Some((x, y)), ..self }
    }

    /// Sets whether the annotation is hidden.
    pub fn hidden(self, hide: bool) -> (r: Self)
        ensures
            r@ == (AnnotationView { hidden: hide, ..self@ }),
    {
        Annotation { hidden: hide, ..self }
    }

    /// Serializes the annotation sequence, rejecting coordinates without a
    /// length as a contract violation rather than guessing a layout.
    pub fn show(&self) -> (r: Result<String, ContractViolation>)
        ensures
            r is Ok <==> annotation_valid(self@),
            annotation_valid(self@) ==> (r matches Ok(s) && s@ == annotation_text(self@)),
            !annotation_valid(self@) ==> r == Err::<String, ContractViolation>(
                ContractViolation::CoordinatesWithoutLength,
            ),
    {
        let ghost v = self@;
        let mut out = String::new();
        out.append("\u{1b}]1337;");
        out.append(if self.hidden { "AddHiddenAnnotation" } else { "AddAnnotation" });
        out.append("=");
        match (&self.length, &self.coords) {
            (None, None) => {
                out.append(self.message.as_str());
            },
            (Some(l), None) => {
                push_dec(&mut out, *l as u64);
                out.append("|");
                out.append(self.message.as_str());
            },
            (Some(l), Some(c)) => {
                out.append(self.message.as_str());
                out.append("|");
                push_dec(&mut out, *l as u64);
                out.append("|");
                push_dec(&mut out, c.0 as u64);
                out.append("|");
                push_dec(&mut out, c.1 as u64);
            },
            (None, Some(_)) => {
                return Err(ContractViolation::CoordinatesWithoutLength);
            },
        }
        out.append("\u{7}");
        proof {
            assert(out@ =~= annotation_text(v));
        }
        Ok(out)
    }
}

} // verus!
