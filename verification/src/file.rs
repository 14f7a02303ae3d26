//! The inline-image builder: accumulates optional display parameters and
//! serializes them, together with the base64-encoded payload, into one
//! file-transfer escape sequence.

use vstd::prelude::*;
use vstd::slice::slice_to_vec;
use vstd::string::StringExecFns;
use crate::encode::{b64_of, base64_text, dec_digits, payload_fits, push_dec};
use crate::dimension::{dim_text, dim_valid, push_dim, Dimension};
use crate::ContractViolation;

verus! {

/// The abstract state of a [`File`] builder: which optional parameters are
/// set, and the raw payload bytes.
pub struct FileView {
    pub name: Option<Seq<char>>,
    pub size: Option<u32>,
    pub width: Option<Dimension>,
    pub height: Option<Dimension>,
    pub preserve_aspect_ratio: Option<bool>,
    pub contents: Seq<u8>,
}

/// `0` for false, `1` for true, as the protocol writes booleans.
pub open spec fn bool_digit(b: bool) -> Seq<char> {
    if b {
        "1"@
    } else {
        "0"@
    }
}

/// One `key=value;` header entry.
pub open spec fn entry_text(key: Seq<char>, val: Seq<char>) -> Seq<char> {
    key + val + ";"@
}

/// The text of an optional header entry: nothing at all when the field is
/// unset, `key=value;` when it is set.
pub open spec fn opt_part(key: Seq<char>, val: Option<Seq<char>>) -> Seq<char> {
    match val {
        None => Seq::empty(),
        Some(s) => entry_text(key, s),
    }
}

/// The value text of each optional field, when set.
pub open spec fn size_text(size: Option<u32>) -> Option<Seq<char>> {
    match size {
        None => None,
        Some(n) => Some(dec_digits(n as nat)),
    }
}

pub open spec fn dim_opt_text(d: Option<Dimension>) -> Option<Seq<char>> {
    match d {
        None => None,
        Some(d) => Some(dim_text(d)),
    }
}

pub open spec fn bool_opt_text(b: Option<bool>) -> Option<Seq<char>> {
    match b {
        None => None,
        Some(b) => Some(bool_digit(b)),
    }
}

/// The header of the file sequence: each set field as `key=value;` in the
/// fixed order name, size, width, height, preserveAspectRatio, then the
/// mandatory `inline=<0|1>;`.
pub open spec fn file_header(v: FileView, inline: bool) -> Seq<char> {
    opt_part("name="@, v.name) + opt_part("size="@, size_text(v.size)) + opt_part(
        "width="@,
        dim_opt_text(v.width),
    ) + opt_part("height="@, dim_opt_text(v.height)) + opt_part(
        "preserveAspectRatio="@,
        bool_opt_text(v.preserve_aspect_ratio),
    ) + entry_text("inline="@, bool_digit(inline))
}

/// The full escape sequence: `ESC ] 1337 ; File =`, the header, `:`, the
/// base64 payload, `BEL`.
pub open spec fn file_text(v: FileView, inline: bool) -> Seq<char> {
    "\u{1b}]1337;File="@ + file_header(v, inline) + ":"@ + b64_of(v.contents) + "\u{7}"@
}

/// A builder is well formed when its dimensions, if set, are valid; a
/// percentage over 100 is a contract violation.
pub open spec fn file_wf(v: FileView) -> bool {
    &&& (v.width matches Some(d) ==> dim_valid(d))
    &&& (v.height matches Some(d) ==> dim_valid(d))
}

/// The `(key, value)` entries that an optional field contributes to the
/// header: none when it is unset, exactly one when it is set.
pub open spec fn opt_entries(key: Seq<char>, val: Option<Seq<char>>) -> Seq<(Seq<char>, Seq<char>)> {
    match val {
        None => Seq::empty(),
        Some(s) => seq![(key, s)],
    }
}

/// The entry list of the header: one entry for each set optional field, in
/// the fixed order, and always the `inline` entry last.
pub open spec fn file_entries(v: FileView, inline: bool) -> Seq<(Seq<char>, Seq<char>)> {
    opt_entries("name="@, v.name) + opt_entries("size="@, size_text(v.size)) + opt_entries(
        "width="@,
        dim_opt_text(v.width),
    ) + opt_entries("height="@, dim_opt_text(v.height)) + opt_entries(
        "preserveAspectRatio="@,
        bool_opt_text(v.preserve_aspect_ratio),
    ) + seq![("inline="@, bool_digit(inline))]
}

/// Renders an entry list as consecutive `key=value;` chunks.
pub open spec fn render_entries(es: Seq<(Seq<char>, Seq<char>)>) -> Seq<char>
    decreases es.len(),
{
    if es.len() == 0 {
        Seq::empty()
    } else {
        entry_text(es[0].0, es[0].1) + render_entries(es.drop_first())
    }
}

/// A key that may lawfully stand in the header for `v`: the key of an
/// explicitly set field, or `inline`, which is always emitted.
pub open spec fn key_allowed(k: Seq<char>, v: FileView) -> bool {
    ||| (k == "name="@ && v.name is Some)
    ||| (k == "size="@ && v.size is Some)
    ||| (k == "width="@ && v.width is Some)
    ||| (k == "height="@ && v.height is Some)
    ||| (k == "preserveAspectRatio="@ && v.preserve_aspect_ratio is Some)
    ||| k == "inline="@
}

/// Every key of `es` is allowed for `v`.
pub open spec fn keys_allowed(es: Seq<(Seq<char>, Seq<char>)>, v: FileView) -> bool {
    forall|i: int| 0 <= i < es.len() ==> key_allowed(#[trigger] es[i].0, v)
}

proof fn lemma_render_app(a: Seq<(Seq<char>, Seq<char>)>, b: Seq<(Seq<char>, Seq<char>)>)
    ensures
        render_entries(a + b) == render_entries(a) + render_entries(b),
    decreases a.len(),
{
    if a.len() == 0 {
        assert(a + b =~= b);
        assert(render_entries(a) + render_entries(b) =~= render_entries(b));
    } else {
        lemma_render_app(a.drop_first(), b);
        assert((a + b).drop_first() =~= a.drop_first() + b);
        assert(render_entries(a + b) =~= render_entries(a) + render_entries(b));
    }
}

proof fn lemma_render_opt(key: Seq<char>, val: Option<Seq<char>>)
    ensures
        render_entries(opt_entries(key, val)) == opt_part(key, val),
{
    match val {
        None => {
        },
        Some(s) => {
            let es = opt_entries(key, val);
            assert(es.drop_first() =~= Seq::<(Seq<char>, Seq<char>)>::empty());
            assert(render_entries(Seq::<(Seq<char>, Seq<char>)>::empty()) == Seq::<char>::empty());
            assert(render_entries(es) =~= opt_part(key, val));
        },
    }
}

proof fn lemma_keys_app(a: Seq<(Seq<char>, Seq<char>)>, b: Seq<(Seq<char>, Seq<char>)>, v: FileView)
    requires
        keys_allowed(a, v),
        keys_allowed(b, v),
    ensures
        keys_allowed(a + b, v),
{
    assert forall|i: int| 0 <= i < (a + b).len() implies key_allowed(#[trigger] (a + b)[i].0, v) by {
        if i < a.len() {
            assert((a + b)[i] == a[i]);
        } else {
            assert((a + b)[i] == b[i - a.len()]);
        }
    }
}

/// Law: the header of the serialized sequence is exactly the rendering of
/// its entry list; a key stands in that list only when its field was
/// explicitly set (or is the mandatory `inline` key), so an unset field
/// never appears in the output; and the `inline` entry is always present,
/// in last position.
pub proof fn lemma_header_keys(v: FileView, inline: bool)
    ensures
        file_header(v, inline) == render_entries(file_entries(v, inline)),
        keys_allowed(file_entries(v, inline), v),
        file_entries(v, inline).len() > 0,
        file_entries(v, inline).last() == ("inline="@, bool_digit(inline)),
{
    let e1 = opt_entries("name="@, v.name);
    let e2 = opt_entries("size="@, size_text(v.size));
    let e3 = opt_entries("width="@, dim_opt_text(v.width));
    let e4 = opt_entries("height="@, dim_opt_text(v.height));
    let e5 = opt_entries("preserveAspectRatio="@, bool_opt_text(v.preserve_aspect_ratio));
    let e6 = seq![("inline="@, bool_digit(inline))];
    lemma_render_app(e1, e2);
    lemma_render_app(e1 + e2, e3);
    lemma_render_app(e1 + e2 + e3, e4);
    lemma_render_app(e1 + e2 + e3 + e4, e5);
    lemma_render_app(e1 + e2 + e3 + e4 + e5, e6);
    lemma_render_opt("name="@, v.name);
    lemma_render_opt("size="@, size_text(v.size));
    lemma_render_opt("width="@, dim_opt_text(v.width));
    lemma_render_opt("height="@, dim_opt_text(v.height));
    lemma_render_opt("preserveAspectRatio="@, bool_opt_text(v.preserve_aspect_ratio));
    assert(e6.drop_first() =~= Seq::<(Seq<char>, Seq<char>)>::empty());
    assert(render_entries(Seq::<(Seq<char>, Seq<char>)>::empty()) == Seq::<char>::empty());
    assert(render_entries(e6) =~= entry_text("inline="@, bool_digit(inline)));
    assert(file_header(v, inline) =~= render_entries(file_entries(v, inline)));
    assert(keys_allowed(e1, v));
    assert(keys_allowed(e2, v));
    assert(keys_allowed(e3, v));
    assert(keys_allowed(e4, v));
    assert(keys_allowed(e5, v));
    assert(keys_allowed(e6, v));
    lemma_keys_app(e1, e2, v);
    lemma_keys_app(e1 + e2, e3, v);
    lemma_keys_app(e1 + e2 + e3, e4, v);
    lemma_keys_app(e1 + e2 + e3 + e4, e5, v);
    lemma_keys_app(e1 + e2 + e3 + e4 + e5, e6, v);
    assert(file_entries(v, inline).last() == ("inline="@, bool_digit(inline)));
}

/// A builder for transferring or drawing images in the terminal.
pub struct File {
    name: Option<String>,
    size: Option<u32>,
    width: Option<Dimension>,
    height: Option<Dimension>,
    preserve_aspect_ratio: Option<bool>,
    contents: Vec<u8>,
}

impl View for File {
    type V = FileView;

    closed spec fn view(&self) -> FileView {
        FileView {
            name: match self.name {
                Some(s) => Some(s@),
                None => None,
            },
            size: self.size,
            width: self.width,
            height: self.height,
            preserve_aspect_ratio: self.preserve_aspect_ratio,
            contents: self.contents@,
        }
    }
}

/// Whether an optional dimension is absent or valid.
fn opt_dim_ok(o: &Option<Dimension>) -> (b: bool)
    ensures
        b == (*o matches Some(d) ==> dim_valid(d)),
{
    match o {
        None => true,
        Some(Dimension::Percent(p)) => *p <= 100,
        Some(_) => true,
    }
}

/// Appends the `name` entry when the name is set.
fn push_name(out: &mut String, name: &Option<String>)
    ensures
        final(out)@ == old(out)@ + opt_part(
            "name="@,
            match *name {
                Some(s) => Some(s@),
                None => None::<Seq<char>>,
            },
        ),
{
    if let Some(n) = name {
        out.append("name=");
        out.append(n.as_str());
        out.append(";");
    }
    proof {
        assert(out@ =~= old(out)@ + opt_part(
            "name="@,
            match *name {
                Some(s) => Some(s@),
                None => None::<Seq<char>>,
            },
        ));
    }
}

/// Appends the `size` entry when the size is set.
fn push_size(out: &mut String, size: &Option<u32>)
    ensures
        final(out)@ == old(out)@ + opt_part("size="@, size_text(*size)),
{
    if let Some(n) = size {
        out.append("size=");
        push_dec(out, *n as u64);
        out.append(";");
    }
    proof {
        assert(out@ =~= old(out)@ + opt_part("size="@, size_text(*size)));
    }
}

/// Appends a dimension entry (`width=` or `height=`) when it is set.
fn push_dim_part(out: &mut String, key: &str, d: &Option<Dimension>)
    requires
        (*d matches Some(x) ==> dim_valid(x)),
    ensures
        final(out)@ == old(out)@ + opt_part(key@, dim_opt_text(*d)),
{
    if let Some(x) = d {
        out.append(key);
        push_dim(out, x);
        out.append(";");
    }
    proof {
        assert(out@ =~= old(out)@ + opt_part(key@, dim_opt_text(*d)));
    }
}

/// Appends the `preserveAspectRatio` entry when the flag is set.
fn push_aspect(out: &mut String, b: &Option<bool>)
    ensures
        final(out)@ == old(out)@ + opt_part("preserveAspectRatio="@, bool_opt_text(*b)),
{
    if let Some(x) = b {
        out.append("preserveAspectRatio=");
        out.append(if *x { "1" } else { "0" });
        out.append(";");
    }
    proof {
        assert(out@ =~= old(out)@ + opt_part("preserveAspectRatio="@, bool_opt_text(*b)));
    }
}

/// Appends the mandatory `inline` entry.
fn push_inline(out: &mut String, inline: bool)
    ensures
        final(out)@ == old(out)@ + entry_text("inline="@, bool_digit(inline)),
{
    out.append("inline=");
    out.append(if inline { "1" } else { "0" });
    out.append(";");
    proof {
        assert(out@ =~= old(out)@ + entry_text("inline="@, bool_digit(inline)));
    }
}

impl File {
    /// Creates a new image builder from the raw image bytes, with every
    /// optional parameter unset.
    pub fn new(contents: &[u8]) -> (r: Self)
        ensures
            r@ == (FileView {
                name: None,
                size: None,
                width: None,
                height: None,
                preserve_aspect_ratio: None,
                contents: contents@,
            }),
    {
        File {
            name: None,
            size: None,
            width: None,
            height: None,
            preserve_aspect_ratio: None,
            contents: slice_to_vec(contents),
        }
    }

    /// Sets the file name, used by the terminal for a download.
    pub fn name(self, name: String) -> (r: Self)
        ensures
            r@ == (FileView { name: Some(name@), ..self@ }),
    {
        File { name: Some(name), ..self }
    }

    /// Sets the size of the file in bytes, used for a progress indicator.
    pub fn size(self, size: u32) -> (r: Self)
        ensures
            r@ == (FileView { size: Some(size), ..self@ }),
    {
        File { size: Some(size), ..self }
    }

    /// Sets the width of the image.
    pub fn width(self, width: Dimension) -> (r: Self)
        ensures
            r@ == (FileView { width: Some(width), ..self@ }),
    {
        File { width: Some(width), ..self }
    }

    /// Sets the height of the image.
    pub fn height(self, height: Dimension) -> (r: Self)
        ensures
            r@ == (FileView { height: Some(height), ..self@ }),
    {
        File { height: Some(height), ..self }
    }

    /// Sets whether the aspect ratio of the image is kept.
    pub fn preserve_aspect_ratio(self, preserve: bool) -> (r: Self)
        ensures
            r@ == (FileView { preserve_aspect_ratio: Some(preserve), ..self@ }),
    {
        File { preserve_aspect_ratio: Some(preserve), ..self }
    }

    /// The number of payload bytes held by the builder.
    pub fn contents_len(&self) -> (r: usize)
        ensures
            r == self@.contents.len(),
    {
        self.contents.len()
    }

    /// Serializes the sequence with the given inline flag.
    fn action(&self, inline: bool) -> (r: Result<String, ContractViolation>)
        requires
            payload_fits(self@.contents.len()),
        ensures
            r is Ok <==> file_wf(self@),
            file_wf(self@) ==> (r matches Ok(s) && s@ == file_text(self@, inline)),
            !file_wf(self@) ==> r == Err::<String, ContractViolation>(
                ContractViolation::PercentOutOfRange,
            ),
    {
        if !opt_dim_ok(&self.width) || !opt_dim_ok(&self.height) {
            return Err(ContractViolation::PercentOutOfRange);
        }
        let ghost v = self@;
        let mut out = String::new();
        out.append("\u{1b}]1337;File=");
        push_name(&mut out, &self.name);
        push_size(&mut out, &self.size);
        push_dim_part(&mut out, "width=", &self.width);
        push_dim_part(&mut out, "height=", &self.height);
        push_aspect(&mut out, &self.preserve_aspect_ratio);
        push_inline(&mut out, inline);
        out.append(":");
        let b64 = base64_text(self.contents.as_slice());
        out.append(b64.as_str());
        out.append("\u{7}");
        proof {
            assert(out@ =~= file_text(v, inline));
        }
        Ok(out)
    }

    /// Serializes the sequence that offers the payload as a downloadable
    /// file (`inline=0;`), without displaying it and without a trailing
    /// newline.
    pub fn download(&self) -> (r: Result<String, ContractViolation>)
        requires
            payload_fits(self@.contents.len()),
        ensures
            r is Ok <==> file_wf(self@),
            file_wf(self@) ==> (r matches Ok(s) && s@ == file_text(self@, false)),
            !file_wf(self@) ==> r == Err::<String, ContractViolation>(
                ContractViolation::PercentOutOfRange,
            ),
    {
        self.action(false)
    }

    /// Serializes the sequence that displays the payload in place
    /// (`inline=1;`), followed by a trailing newline.
    pub fn show(&self) -> (r: Result<String, ContractViolation>)
        requires
            payload_fits(self@.contents.len()),
        ensures
            r is Ok <==> file_wf(self@),
            file_wf(self@) ==> (r matches Ok(s) && s@ == file_text(self@, true) + "\n"@),
            !file_wf(self@) ==> r == Err::<String, ContractViolation>(
                ContractViolation::PercentOutOfRange,
            ),
    {
        match self.action(true) {
            Ok(mut s) => {
                s.append("\n");
                Ok(s)
            },
            Err(e) => Err(e),
        }
    }
}

} // verus!
