//! What the folder archiver decides about its entries: which entry names
//! are glob patterns, how a path inside the archive is spelled, and the
//! errors the archiver reports. Walking the tree and writing the container
//! are the caller's.

use vstd::prelude::*;

verus! {

/// Why archiving a folder failed. Each path-carrying variant holds the
/// rendered path of the file it is about.
#[derive(Debug)]
pub enum ZipError {
    WriteError(String),
    FileReadError(String),
    GlobError(),
}

impl ZipError {
    /// The human-readable message of this error.
    pub fn message(&self) -> (r: String)
        ensures
            match self {
                ZipError::WriteError(p) => r@ == "unable to write file "@ + p@,
                ZipError::FileReadError(p) => r@ == "unable to read file "@ + p@,
                ZipError::GlobError() => r@ == "global error occured"@,
            },
    {
        match self {
            ZipError::WriteError(p) => {
                let mut s = String::from_str("unable to write file ");
                s.append(p.as_str());
                s
            },
            ZipError::FileReadError(p) => {
                let mut s = String::from_str("unable to read file ");
                s.append(p.as_str());
                s
            },
            ZipError::GlobError() => String::from_str("global error occured"),
        }
    }
}

/// Whether the archiver treats an entry name as a glob pattern to expand
/// rather than a plain file name: it contains a `*`.
pub fn is_glob_pattern(name: &str) -> (r: bool)
    ensures
        r == name@.contains('*'),
{
    let len = name.unicode_len();
    let mut i: usize = 0;
    while i < len
        invariant
            len == name@.len(),
            i <= len,
            forall|k: int| 0 <= k < i ==> name@[k] != '*',
        decreases len - i,
    {
        if name.get_char(i) == '*' {
            proof {
                assert(name@.contains('*'));
            }
            return true;
        }
        i = i + 1;
    }
    proof {
        assert(!name@.contains('*'));
    }
    false
}

/// The joining of path components with `/` separators.
pub open spec fn spec_joined(components: Seq<Seq<char>>) -> Seq<char>
    decreases components.len(),
{
    if components.len() == 0 {
        Seq::empty()
    } else if components.len() == 1 {
        components[0]
    } else {
        spec_joined(components.drop_last()) + seq!['/'] + components.last()
    }
}

/// The spelling of a path inside the archive: its normal components joined
/// with `/`, whatever separator the platform uses.
pub fn path_to_string(components: &Vec<String>) -> (r: String)
    ensures
        r@ == spec_joined(components@.map_values(|c: String| c@)),
{
    let ghost views = components@.map_values(|c: String| c@);
    let mut s = String::new();
    let mut i: usize = 0;
    while i < components.len()
        invariant
            i <= components@.len(),
            views == components@.map_values(|c: String| c@),
            s@ == spec_joined(views.take(i as int)),
        decreases components@.len() - i,
    {
        proof {
            reveal_strlit("/");
            assert("/"@ =~= seq!['/']);
        }
        if i > 0 {
            s.append("/");
        }
        s.append(components[i].as_str());
        proof {
            assert(views.take((i + 1) as int).drop_last() =~= views.take(i as int));
            assert(views.take((i + 1) as int).last() == views[i as int]);
            if i == 0 {
                assert(views.take(1int)[0] == views[0]);
                assert(Seq::<char>::empty() + views[0] =~= views[0]);
            }
        }
        i = i + 1;
    }
    proof {
        assert(views.take(components@.len() as int) =~= views);
    }
    s
}

} // verus!
