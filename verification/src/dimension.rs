//! Size specifications for the inline-image builder.

use vstd::prelude::*;
use vstd::string::StringExecFns;
use crate::encode::{dec_digits, push_dec};
use crate::ContractViolation;

verus! {

/// How large an image should be rendered.
#[derive(Debug, Clone, Copy, PartialEq, Eq, Structural)]
pub enum Dimension {
    /// The terminal chooses a size.
    Auto,
    /// A number of pixels.
    Pixel(u32),
    /// A number of terminal cells.
    Cells(u32),
    /// A percentage of the current terminal size; only values up to 100 are
    /// meaningful, larger ones are a contract violation.
    Percent(u8),
}

/// A dimension is valid when a percentage does not exceed 100; the other
/// variants carry no constraint.
pub open spec fn dim_valid(d: Dimension) -> bool {
    match d {
        Dimension::Percent(p) => p <= 100,
        _ => true,
    }
}

/// The protocol text of a dimension: `auto`, `<n>px`, `<n>` or `<n>%`.
pub open spec fn dim_text(d: Dimension) -> Seq<char> {
    match d {
        Dimension::Auto => "auto"@,
        Dimension::Pixel(n) => dec_digits(n as nat) + "px"@,
        Dimension::Cells(n) => dec_digits(n as nat),
        Dimension::Percent(p) => dec_digits(p as nat) + "%"@,
    }
}

/// Appends the protocol text of a valid dimension to `out`.
pub fn push_dim(out: &mut String, d: &Dimension)
    requires
        dim_valid(*d),
    ensures
        final(out)@ == old(out)@ + dim_text(*d),
{
    match d {
        Dimension::Auto => {
            out.append("auto");
        },
        Dimension::Pixel(n) => {
            push_dec(out, *n as u64);
            out.append("px");
            proof {
                assert(out@ =~= old(out)@ + dim_text(*d));
            }
        },
        Dimension::Cells(n) => {
            push_dec(out, *n as u64);
        },
        Dimension::Percent(p) => {
            push_dec(out, *p as u64);
            out.append("%");
            proof {
                assert(out@ =~= old(out)@ + dim_text(*d));
            }
        },
    }
}

impl Dimension {
    /// Serializes the dimension, rejecting a percentage over 100 as a
    /// contract violation rather than clamping it.
    pub fn text(&self) -> (r: Result<String, ContractViolation>)
        ensures
            r is Ok <==> dim_valid(*self),
            dim_valid(*self) ==> (r matches Ok(s) && s@ == dim_text(*self)),
            !dim_valid(*self) ==> r == Err::<String, ContractViolation>(
                ContractViolation::PercentOutOfRange,
            ),
    {
        if let Dimension::Percent(p) = self {
            if *p > 100 {
                return Err(ContractViolation::PercentOutOfRange);
            }
        }
        let mut out = String::new();
        push_dim(&mut out, self);
        Ok(out)
    }
}

} // verus!
