//! File modes and the native form of what opening a file takes.
use vstd::prelude::*;
use vstd::string::StringSliceAdditionalSpecFns;
use crate::errors::Error;

verus! {

/// How a trajectory file is opened.
#[derive(Debug, Clone, Copy, PartialEq, Eq, Structural)]
pub enum FileMode {
    Write,
    Append,
    Read,
}

/// The native mode token of `mode`: its letter, then the terminator.
pub open spec fn mode_token(mode: FileMode) -> Seq<u8> {
    match mode {
        FileMode::Write => seq![0x77u8, 0u8],
        FileMode::Append => seq![0x61u8, 0u8],
        FileMode::Read => seq![0x72u8, 0u8],
    }
}

impl FileMode {
    /// The null-terminated native mode token: `w`, `a` or `r`.
    pub fn to_cstr(&self) -> (r: [u8; 2])
        ensures
            r@ == mode_token(*self),
    {
        let r: [u8; 2] = match *self {
            FileMode::Write => [0x77u8, 0u8],
            FileMode::Append => [0x61u8, 0u8],
            FileMode::Read => [0x72u8, 0u8],
        };
        assert(r@ =~= mode_token(*self));
        r
    }
}

/// Whether byte `i` of `b` is its first zero byte.
pub open spec fn first_nul(b: Seq<u8>, i: int) -> bool {
    &&& 0 <= i < b.len()
    &&& b[i] == 0
    &&& forall|j: int| 0 <= j < i ==> b[j] != 0
}

/// The null-terminated native form of a path, from the path's text (`None`
/// when the path is not text).
///
/// A path that is not text, or that holds a zero byte, has no native form.
pub fn path_to_cstring(path: Option<&str>) -> (r: Result<Vec<u8>, Error>)
    ensures
        path is None ==> r == Err::<Vec<u8>, Error>(Error::InvalidOsStr(None)),
        path matches Some(s) ==> is_native_text(s.spec_bytes(), r),
{
    match path {
        None => Err(Error::InvalidOsStr(None)),
        Some(s) => text_to_cstring(s),
    }
}

/// Whether `r` is the native form of text with bytes `b`: the bytes and a
/// terminator when none of them is zero, else the error that names the
/// first zero byte.
pub open spec fn is_native_text(b: Seq<u8>, r: Result<Vec<u8>, Error>) -> bool {
    match r {
        Ok(v) => (forall|j: int| 0 <= j < b.len() ==> b[j] != 0) && v@ == b.push(0),
        Err(e) => exists|i: int| first_nul(b, i) && e == Error::InvalidOsStr(Some(i as usize)),
    }
}

/// The native form of the text `s`.
fn text_to_cstring(s: &str) -> (r: Result<Vec<u8>, Error>)
    ensures
        is_native_text(s.spec_bytes(), r),
{
    let bytes = s.as_bytes();
    let mut out: Vec<u8> = Vec::new();
    let mut i: usize = 0;
    while i < bytes.len()
        invariant
            i <= bytes@.len(),
            bytes@ == s.spec_bytes(),
            out@ == bytes@.subrange(0, i as int),
            forall|j: int| 0 <= j < i ==> bytes@[j] != 0,
        decreases bytes@.len() - i,
    {
        if bytes[i] == 0 {
            assert(first_nul(bytes@, i as int));
            return Err(Error::InvalidOsStr(Some(i)));
        }
        out.push(bytes[i]);
        i = i + 1;
        assert(out@ =~= bytes@.subrange(0, i as int));
    }
    out.push(0u8);
    assert(out@ =~= s.spec_bytes().push(0));
    Ok(out)
}

} // verus!
