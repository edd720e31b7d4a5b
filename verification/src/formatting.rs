//! The part of `std::fmt` that the `Display` impls of this crate rest on.
//!
//! Every `Display` impl here hands one piece of text to the formatter. The
//! formatter is a sink that the verifier cannot look into, so its contents get
//! a name, `written`, and `Formatter::write_str` is described over that name.

use vstd::prelude::*;

verus! {

/// `std::fmt::Formatter`, carried through by reference and never inspected.
#[verifier::external_type_specification]
#[verifier::external_body]
pub struct ExFormatter<'a>(std::fmt::Formatter<'a>);

/// `std::fmt::Error`, the error of a failed write.
#[verifier::external_type_specification]
#[verifier::external_body]
pub struct ExFmtError(std::fmt::Error);

/// The text that has been written through a formatter so far.
pub uninterp spec fn written(f: std::fmt::Formatter<'_>) -> Seq<char>;

/// `Formatter::write_str` writes `data` to the buffer behind the formatter.
/// The contract claims that a successful call appends exactly `data` to what
/// was written before; of a failed call it claims nothing.
pub assume_specification<'a>[ std::fmt::Formatter::<'a>::write_str ](
    f: &mut std::fmt::Formatter<'a>,
    data: &str,
) -> (r: std::fmt::Result)
    ensures
        r is Ok ==> written(*final(f)) == written(*old(f)) + data@,
;

} // verus!
