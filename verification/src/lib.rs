//! Decoding of the BPF Type Format (BTF) and emission of Rust bindings from it.

use vstd::prelude::*;

pub mod bytes;
mod error;
pub mod file;
pub mod rust;
pub mod text;
pub mod tokens;
pub mod ty;

pub use error::{Error, SpecError};
pub use file::Kind;
pub use ty::{Type, Types};

verus! {

/// Takes the BTF image `b` apart and returns the stream of its entries, set
/// at the first entry of the type section.
///
/// Fails when the image has no valid magic, or when its header or one of
/// its two sections does not fit into `b`.
pub fn parse(b: &[u8]) -> (res: Result<Types, Error>)
    ensures
        match res {
            Ok(types) => file::spec_parse(b@) matches Ok(f) && types.order() == file::spec_order(b@)
                && types.remaining() == f.types && types.strings() == f.strs,
            Err(e) => file::spec_parse(b@) == Err::<file::SpecFile, SpecError>(e@),
        },
{
    Types::parse(untrusted::Input::from(b))
}

} // verus!
