//! Paths of a compile attempt: the output target and the input file derived
//! from the chosen save path, and the split of a chosen path into the
//! directory to enter and the file name to keep.

use vstd::prelude::*;
use vstd::string::*;

verus! {

/// The suffix that marks a source file: `.iv`.
pub open spec fn source_suffix() -> Seq<char> {
    seq!['.', 'i', 'v']
}

/// Whether `s` ends in the source suffix.
pub open spec fn has_source_suffix(s: Seq<char>) -> bool {
    s.len() >= 3 && s.subrange(s.len() - 3, s.len() as int) == source_suffix()
}

/// The output target of a save path: the path with every trailing source
/// suffix removed.
pub open spec fn output_target_of(s: Seq<char>) -> Seq<char>
    decreases s.len(),
{
    if has_source_suffix(s) {
        output_target_of(s.subrange(0, s.len() - 3))
    } else {
        s
    }
}

/// The input file of a save path: its output target with the source suffix
/// applied once.
pub open spec fn input_path_of(s: Seq<char>) -> Seq<char> {
    output_target_of(s) + source_suffix()
}

/// An output target never ends in the source suffix.
pub proof fn lemma_target_has_no_suffix(s: Seq<char>)
    ensures
        !has_source_suffix(output_target_of(s)),
    decreases s.len(),
{
    if has_source_suffix(s) {
        lemma_target_has_no_suffix(s.subrange(0, s.len() - 3));
    }
}

/// Appending the suffix to `s` gives a sequence that ends in it, and
/// dropping its last three characters gives `s` back.
proof fn lemma_suffix_appended(s: Seq<char>)
    ensures
        has_source_suffix(s + source_suffix()),
        (s + source_suffix()).subrange(0, (s + source_suffix()).len() - 3) == s,
{
    let t = s + source_suffix();
    assert(t.subrange(t.len() - 3, t.len() as int) =~= source_suffix());
    assert(t.subrange(0, t.len() - 3) =~= s);
}

/// The suffix is stripped and then applied once: the input file of a save
/// path ends in the source suffix, names the same output target as the save
/// path, and is its own input file.
pub proof fn law_suffix_applied_once(s: Seq<char>)
    ensures
        has_source_suffix(input_path_of(s)),
        output_target_of(input_path_of(s)) == output_target_of(s),
        input_path_of(input_path_of(s)) == input_path_of(s),
        !has_source_suffix(s) ==> output_target_of(s) == s && input_path_of(s) == s
            + source_suffix(),
{
    let t = output_target_of(s);
    lemma_target_has_no_suffix(s);
    lemma_suffix_appended(t);
    assert(output_target_of(t) == t);
    assert(output_target_of(t + source_suffix()) == output_target_of(t));
}

/// The output target handed to the compiler for the save path `path`.
pub fn output_target(path: &str) -> (target: String)
    ensures
        target@ == output_target_of(path@),
{
    let mut n: usize = path.unicode_len();
    assert(path@.subrange(0, n as int) =~= path@);
    while n >= 3 && path.get_char(n - 3) == '.' && path.get_char(n - 2) == 'i' && path.get_char(
        n - 1,
    ) == 'v'
        invariant
            n <= path@.len(),
            output_target_of(path@.subrange(0, n as int)) == output_target_of(path@),
        decreases n,
    {
        proof {
            let p = path@.subrange(0, n as int);
            assert(p.subrange(p.len() - 3, p.len() as int) =~= source_suffix());
            assert(p.subrange(0, p.len() - 3) =~= path@.subrange(0, n - 3));
        }
        n = n - 3;
    }
    proof {
        let p = path@.subrange(0, n as int);
        if n >= 3 {
            let tail = p.subrange(p.len() - 3, p.len() as int);
            assert(tail[0] == path@[n - 3] && tail[1] == path@[n - 2] && tail[2] == path@[n - 1]);
            assert(source_suffix()[0] == '.' && source_suffix()[1] == 'i' && source_suffix()[2]
                == 'v');
        }
        assert(!has_source_suffix(p));
    }
    path.substring_char(0, n).to_owned()
}

/// The input file written before the compiler runs on the save path `path`.
pub fn input_path(path: &str) -> (input: String)
    ensures
        input@ == input_path_of(path@),
{
    proof {
        reveal_strlit(".iv");
        assert(".iv"@ =~= source_suffix());
    }
    output_target(path).concat(".iv")
}

/// The directory that holds a path: what `std::path::Path::parent` returns
/// for it under the path syntax of the platform that the library is built
/// for, or `None` where it returns none.
pub uninterp spec fn parent_of(path: Seq<char>) -> Option<Seq<char>>;

/// The final component of a path: what `std::path::Path::file_name` returns
/// for it under the path syntax of the platform that the library is built
/// for, or `None` where it returns none.
pub uninterp spec fn file_name_of(path: Seq<char>) -> Option<Seq<char>>;

/// The directory that holds `path`, by `std::path::Path::parent`. The call
/// only parses the text of the path, so equal paths have equal parents: the
/// result is `parent_of` of the path. Of its value one thing is claimed,
/// which the documentation states: the empty path has no parent.
#[verifier::external_body]
pub(crate) fn parent_directory(path: &str) -> (dir: Option<String>)
    ensures
        dir.deep_view() == parent_of(path@),
        path@.len() == 0 ==> dir is None,
{
    std::path::Path::new(path).parent().and_then(std::path::Path::to_str).map(str::to_owned)
}

/// The final component of `path`, by `std::path::Path::file_name`. The call
/// only parses the text of the path, so equal paths have equal final
/// components: the result is `file_name_of` of the path. Nothing is claimed
/// of its value.
#[verifier::external_body]
pub(crate) fn final_component(path: &str) -> (name: Option<String>)
    ensures
        name.deep_view() == file_name_of(path@),
{
    std::path::Path::new(path).file_name().map(std::path::Path::new).and_then(
        std::path::Path::to_str,
    ).map(str::to_owned)
}

} // verus!
