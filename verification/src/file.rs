//! Records for files unpacked from a firmware package into the tool's
//! cache, and the naming rules behind them.
//!
//! Resolving the cache directory and writing the bytes are the host's
//! work; verified here are the record itself, the rule that derives a
//! file's display name from its path inside the package, and the shape of
//! the freshly drawn on-disk file name.
use vstd::prelude::*;

verus! {

/// One file unpacked into the cache: where it was written, the name it
/// carries inside the package, its size and its modification time.
#[derive(Debug)]
pub struct TmpFile {
    pub path: String,
    pub name: String,
    pub size: u32,
    pub mtime: u64,
}

/// Mathematical value of a [`TmpFile`].
pub ghost struct TmpFileModel {
    pub path: Seq<char>,
    pub name: Seq<char>,
    pub size: int,
    pub mtime: int,
}

impl View for TmpFile {
    type V = TmpFileModel;

    open spec fn view(&self) -> TmpFileModel {
        TmpFileModel {
            path: self.path@,
            name: self.name@,
            size: self.size as int,
            mtime: self.mtime as int,
        }
    }
}

impl Clone for TmpFile {
    fn clone(&self) -> (r: Self)
        ensures
            r@ == self@,
    {
        TmpFile {
            path: self.path.clone(),
            name: self.name.clone(),
            size: self.size,
            mtime: self.mtime,
        }
    }
}

/// The display name a package path denotes: what follows the last `/`
/// (package paths use `/` as their separator), empty when nothing does.
pub open spec fn spec_basename(s: Seq<char>) -> Seq<char>
    decreases s.len(),
{
    if s.len() == 0 {
        s
    } else if s.last() == '/' {
        Seq::empty()
    } else {
        spec_basename(s.drop_last()).push(s.last())
    }
}

/// The suffix after the position of the last `/` is the basename.
proof fn lemma_basename_suffix(s: Seq<char>, cut: int)
    requires
        0 <= cut <= s.len(),
        cut > 0 ==> s[cut - 1] == '/',
        forall|j: int| cut <= j < s.len() ==> s[j] != '/',
    ensures
        spec_basename(s) == s.subrange(cut, s.len() as int),
    decreases s.len(),
{
    if s.len() == 0 {
        assert(s.subrange(0, 0) =~= s);
    } else if cut == s.len() {
        if cut > 0 {
            assert(s.last() == '/');
            assert(s.subrange(cut, s.len() as int) =~= Seq::<char>::empty());
        }
    } else {
        assert(s.last() != '/');
        lemma_basename_suffix(s.drop_last(), cut);
        assert(s.drop_last().subrange(cut, s.len() - 1).push(s.last()) =~= s.subrange(
            cut,
            s.len() as int,
        ));
    }
}

/// The display name of a path inside the package: the part after the last
/// `/`, or nothing when the path ends in a separator or is empty.
pub fn file_name_of(path: &str) -> (r: Option<String>)
    ensures
        match r {
            Some(name) => name@ == spec_basename(path@) && name@.len() > 0,
            None => spec_basename(path@).len() == 0,
        },
{
    let len = path.unicode_len();
    let mut cut: usize = 0;
    let mut k: usize = 0;
    while k < len
        invariant
            cut <= k <= len,
            len == path@.len(),
            cut > 0 ==> path@[cut - 1] == '/',
            forall|j: int| cut <= j < k ==> path@[j] != '/',
        decreases len - k,
    {
        if path.get_char(k) == '/' {
            cut = k + 1;
        }
        k = k + 1;
    }
    proof {
        lemma_basename_suffix(path@, cut as int);
    }
    if cut == len {
        return None;
    }
    let name = path.substring_char(cut, len);
    Some(<String as vstd::string::StringExecFns>::from_str(name))
}

#[verifier::external_type_specification]
#[verifier::external_body]
pub struct ExThreadRng(rand::rngs::ThreadRng);

/// Relies on `rand::thread_rng`: a handle to the calling thread's random
/// generator. Nothing is promised of the values it will produce.
#[verifier::external_body]
fn fresh_rng() -> rand::rngs::ThreadRng {
    rand::thread_rng()
}

/// An ASCII letter or digit.
pub open spec fn spec_is_alphanumeric(c: char) -> bool {
    ('0' <= c && c <= '9') || ('a' <= c && c <= 'z') || ('A' <= c && c <= 'Z')
}

/// Relies on `Alphanumeric::sample` from rand: one byte drawn from the 62
/// ASCII letters and digits. Which one is drawn is not promised.
#[verifier::external_body]
fn sample_alphanumeric(rng: &mut rand::rngs::ThreadRng) -> (b: u8)
    ensures
        spec_is_alphanumeric(b as char),
{
    rand::Rng::sample(rng, rand::distributions::Alphanumeric)
}

/// Draw a fresh on-disk file name: ten random letters or digits and the
/// fixed extension. The draw is random, so only the shape is promised.
pub fn generate_tmp_file_name() -> (r: String)
    ensures
        r@.len() == 14,
        forall|i: int| 0 <= i < 10 ==> spec_is_alphanumeric(r@[i]),
        r@.subrange(10, 14) == ".bin"@,
{
    let mut rng = fresh_rng();
    let mut name = String::new();
    let mut i: usize = 0;
    while i < 10
        invariant
            i <= 10,
            name@.len() == i,
            forall|j: int| 0 <= j < i ==> spec_is_alphanumeric(name@[j]),
        decreases 10 - i,
    {
        let b = sample_alphanumeric(&mut rng);
        proof {
            assert(b < 128) by {
                assert(spec_is_alphanumeric(b as char));
            };
        }
        name.push(b as char);
        i = i + 1;
    }
    name.append(".bin");
    proof {
        reveal_strlit(".bin");
        assert(name@.subrange(10, 14) =~= ".bin"@);
    }
    name
}

impl TmpFile {
    /// The record for one file unpacked from the package: the host hands
    /// over the on-disk path it wrote, the file's path inside the package,
    /// the byte count written and the modification time to report. Nothing
    /// is recorded for a package path that denotes no file name.
    pub fn from(path: String, pseudo_path: &str, size: u32, mtime: u64) -> (r: Option<TmpFile>)
        ensures
            match r {
                Some(t) => spec_basename(pseudo_path@).len() > 0 && t@ == (TmpFileModel {
                    path: path@,
                    name: spec_basename(pseudo_path@),
                    size: size as int,
                    mtime: mtime as int,
                }),
                None => spec_basename(pseudo_path@).len() == 0,
            },
    {
        match file_name_of(pseudo_path) {
            Some(name) => Some(TmpFile { path, name, size, mtime }),
            None => None,
        }
    }
}

} // verus!
