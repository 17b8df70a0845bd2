//! Socket addresses: either a filesystem path or an anonymous endpoint.

use vstd::prelude::*;

verus! {

/// The mathematical value of a [`SocketAddr`]: a path as a byte sequence, or
/// nothing at all.
pub enum AddrView {
    /// An anonymous endpoint, as produced by `pair()` or an unbound socket.
    Unnamed,
    /// An endpoint bound at a filesystem path.
    Pathname(Seq<u8>),
}

/// An immutable value identifying a local endpoint: a filesystem path, or an
/// anonymous/unnamed endpoint.  Carries no ownership of any socket.
#[derive(Debug)]
pub enum SocketAddr {
    /// An anonymous endpoint with no name in the filesystem.
    Unnamed,
    /// An endpoint named by a filesystem path, held as its byte form.
    Pathname(Vec<u8>),
}

impl View for SocketAddr {
    type V = AddrView;

    open spec fn view(&self) -> AddrView {
        match self {
            SocketAddr::Unnamed => AddrView::Unnamed,
            SocketAddr::Pathname(p) => AddrView::Pathname(p@),
        }
    }
}

impl Clone for SocketAddr {
    fn clone(&self) -> (r: Self)
        ensures
            r@ == self@,
    {
        match self {
            SocketAddr::Unnamed => SocketAddr::Unnamed,
            SocketAddr::Pathname(p) => SocketAddr::Pathname(clone_bytes(p)),
        }
    }
}

impl SocketAddr {
    /// Is this the anonymous endpoint?
    pub fn is_unnamed(&self) -> (b: bool)
        ensures
            b == (self@ is Unnamed),
    {
        match self {
            SocketAddr::Unnamed => true,
            SocketAddr::Pathname(_) => false,
        }
    }

    /// The filesystem path of this address, if it has one.
    pub fn as_pathname(&self) -> (r: Option<&Vec<u8>>)
        ensures
            match r {
                Some(p) => self@ == AddrView::Pathname(p@),
                None => self@ is Unnamed,
            },
    {
        match self {
            SocketAddr::Unnamed => None,
            SocketAddr::Pathname(p) => Some(p),
        }
    }
}

/// Byte-for-byte copy of a path.
pub fn clone_bytes(b: &Vec<u8>) -> (r: Vec<u8>)
    ensures
        r@ == b@,
{
    let mut out: Vec<u8> = Vec::new();
    let mut i: usize = 0;
    while i < b.len()
        invariant
            i <= b@.len(),
            out@ == b@.take(i as int),
        decreases b@.len() - i,
    {
        out.push(b[i]);
        i = i + 1;
        proof {
            assert(out@ =~= b@.take(i as int));
        }
    }
    proof {
        assert(out@ =~= b@);
    }
    out
}

/// Byte-for-byte equality of two paths.
pub fn bytes_eq(a: &Vec<u8>, b: &Vec<u8>) -> (r: bool)
    ensures
        r == (a@ == b@),
{
    if a.len() != b.len() {
        proof {
            assert(a@.len() != b@.len());
        }
        return false;
    }
    let mut i: usize = 0;
    while i < a.len()
        invariant
            i <= a@.len(),
            a@.len() == b@.len(),
            forall|k: int| 0 <= k < i ==> a@[k] == b@[k],
        decreases a@.len() - i,
    {
        if a[i] != b[i] {
            return false;
        }
        i = i + 1;
    }
    proof {
        assert(a@ =~= b@);
    }
    true
}

} // verus!
