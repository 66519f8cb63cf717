use crate::job::JobError;
use vstd::prelude::*;
use vstd::string::*;

verus! {

/// Index of the last occurrence of `c` in `s`, or -1 when `c` is absent.
pub open spec fn last_index_of(s: Seq<char>, c: char) -> int
    decreases s.len(),
{
    if s.len() == 0 {
        -1
    } else if s[s.len() - 1] == c {
        s.len() - 1
    } else {
        last_index_of(s.drop_last(), c)
    }
}

/// `c` occurs nowhere in `s`.
pub open spec fn free_of(s: Seq<char>, c: char) -> bool {
    forall|k: int| 0 <= k < s.len() ==> s[k] != c
}

/// What `last_index_of` finds: either `c` is absent, or the index carries
/// `c` with nothing but other characters after it.
pub proof fn lemma_last_index_of(s: Seq<char>, c: char)
    ensures
        -1 <= last_index_of(s, c) < s.len(),
        last_index_of(s, c) == -1 ==> free_of(s, c),
        last_index_of(s, c) >= 0 ==> s[last_index_of(s, c)] == c,
        forall|k: int| last_index_of(s, c) < k < s.len() ==> s[k] != c,
    decreases s.len(),
{
    if s.len() == 0 {
    } else if s[s.len() - 1] == c {
    } else {
        lemma_last_index_of(s.drop_last(), c);
        assert forall|k: int| last_index_of(s, c) < k < s.len() implies s[k] != c by {
            if k < s.len() - 1 {
                assert(s.drop_last()[k] == s[k]);
            }
        }
        if last_index_of(s, c) == -1 {
            assert forall|k: int| 0 <= k < s.len() implies s[k] != c by {
                if k < s.len() - 1 {
                    assert(s.drop_last()[k] == s[k]);
                }
            }
        }
    }
}

/// Appending characters among which `c` does not occur leaves the last
/// occurrence of `c` where it was.
pub proof fn lemma_last_index_of_append_free(a: Seq<char>, b: Seq<char>, c: char)
    requires
        free_of(b, c),
    ensures
        last_index_of(a + b, c) == last_index_of(a, c),
    decreases b.len(),
{
    if b.len() == 0 {
        assert(a + b =~= a);
    } else {
        assert(free_of(b.drop_last(), c)) by {
            assert forall|k: int| 0 <= k < b.drop_last().len() implies b.drop_last()[k] != c by {
                assert(b.drop_last()[k] == b[k]);
            }
        }
        lemma_last_index_of_append_free(a, b.drop_last(), c);
        assert((a + b).drop_last() =~= a + b.drop_last());
        assert((a + b)[(a + b).len() - 1] == b[b.len() - 1]);
    }
}

/// The directory part of `p`: everything up to and including the last
/// separator, empty when the path has none.
pub open spec fn dir_of(p: Seq<char>) -> Seq<char> {
    p.subrange(0, last_index_of(p, '/') + 1)
}

/// The file-name part of `p`: everything after the last separator.
pub open spec fn name_of(p: Seq<char>) -> Seq<char> {
    p.subrange(last_index_of(p, '/') + 1, p.len() as int)
}

/// The stem of a file name: the name without its extension.  The extension
/// is what follows the last '.', provided that dot is not the name's first
/// character (a name such as ".config" has no extension and is its own
/// stem).
pub open spec fn stem_of(name: Seq<char>) -> Seq<char> {
    if last_index_of(name, '.') > 0 {
        name.subrange(0, last_index_of(name, '.'))
    } else {
        name
    }
}

/// The fixed suffix appended to the input's stem to name the output file.
pub open spec fn output_suffix() -> Seq<char> {
    "_compressed.pdf"@
}

/// A path from which an output path can be derived: its file name has a
/// non-empty stem.
pub open spec fn has_stem(p: Seq<char>) -> bool {
    stem_of(name_of(p)).len() > 0
}

/// The derived output path: the input's own directory, holding
/// `<stem>_compressed.pdf`.
pub open spec fn output_path_of(p: Seq<char>) -> Seq<char> {
    dir_of(p) + stem_of(name_of(p)) + output_suffix()
}

/// Reports the index of the last occurrence of `c` in `s`, if any.
fn find_last(s: &str, c: char) -> (r: Option<usize>)
    ensures
        match r {
            Some(i) => i == last_index_of(s@, c) && i < s@.len(),
            None => last_index_of(s@, c) == -1,
        },
{
    proof {
        lemma_last_index_of(s@, c);
    }
    let n = s.unicode_len();
    let mut i = n;
    while i > 0
        invariant
            i <= n,
            n == s@.len(),
            forall|k: int| i <= k < n ==> s@[k] != c,
        decreases i,
    {
        i = i - 1;
        if s.get_char(i) == c {
            proof {
                lemma_last_index_of(s@, c);
                let l = last_index_of(s@, c);
                assert(s@[i as int] == c);
                if l == -1 {
                    assert(!free_of(s@, c));
                } else if l < i {
                    assert(s@[i as int] != c);
                } else if l > i {
                    assert(s@[l] == c && s@[l] != c);
                }
            }
            return Some(i);
        }
    }
    None
}

/// Derives the output path for a picked input file: the same directory,
/// with `_compressed.pdf` appended to the input's stem.  A path without a
/// derivable stem is rejected instead of aborting.
pub fn derive_output_path(input: &str) -> (r: Result<String, JobError>)
    ensures
        r is Ok <==> has_stem(input@),
        r matches Ok(out) ==> out@ == output_path_of(input@),
        r matches Err(e) ==> e == JobError::InvalidInputPath,
{
    let n = input.unicode_len();
    let slash = find_last(input, '/');
    proof {
        lemma_last_index_of(input@, '/');
    }
    let name_start: usize = match slash {
        Some(i) => i + 1,
        None => 0,
    };
    let name: &str = input.substring_char(name_start, n);
    proof {
        assert(name@ == name_of(input@));
    }
    let name_len = name.unicode_len();
    let dot = find_last(name, '.');
    let stem_end: usize = match dot {
        Some(i) => if i > 0 {
            i
        } else {
            name_len
        },
        None => name_len,
    };
    proof {
        lemma_last_index_of(name@, '.');
        assert(name@.subrange(0, name@.len() as int) =~= name@);
        assert(stem_end as int == stem_of(name@).len());
    }
    if stem_end == 0 {
        return Err(JobError::InvalidInputPath);
    }
    let stem: &str = name.substring_char(0, stem_end);
    let dir: &str = input.substring_char(0, name_start);
    let mut out = String::from_str(dir);
    out.append(stem);
    out.append("_compressed.pdf");
    proof {
        assert(stem@ =~= stem_of(name_of(input@)));
        assert(dir@ == dir_of(input@));
        assert(out@ =~= output_path_of(input@));
    }
    Ok(out)
}

/// The output-name suffix contains no separator.
pub proof fn lemma_suffix_free_of_separator()
    ensures
        free_of(output_suffix(), '/'),
{
    reveal_strlit("_compressed.pdf");
    assert forall|k: int| 0 <= k < output_suffix().len() implies output_suffix()[k] != '/' by {
        assert(output_suffix().len() == 15);
    }
}

/// Law: for every input path with a non-empty stem, the derived output
/// path lies in the input's own directory, and its file name is the
/// input's stem followed by `_compressed.pdf`.
pub proof fn lemma_output_path_shape(p: Seq<char>)
    requires
        has_stem(p),
    ensures
        dir_of(output_path_of(p)) == dir_of(p),
        name_of(output_path_of(p)) == stem_of(name_of(p)) + output_suffix(),
{
    let l = last_index_of(p, '/');
    lemma_last_index_of(p, '/');
    lemma_last_index_of(name_of(p), '.');
    let dir = dir_of(p);
    let name = name_of(p);
    let stem = stem_of(name);
    let rest = stem + output_suffix();
    let out = output_path_of(p);
    assert(free_of(stem, '/')) by {
        assert forall|k: int| 0 <= k < stem.len() implies stem[k] != '/' by {
            assert(stem[k] == name[k]);
            assert(name[k] == p[l + 1 + k]);
        }
    }
    lemma_suffix_free_of_separator();
    assert(free_of(rest, '/')) by {
        assert forall|k: int| 0 <= k < rest.len() implies rest[k] != '/' by {
            if k < stem.len() {
                assert(rest[k] == stem[k]);
            } else {
                assert(rest[k] == output_suffix()[k - stem.len()]);
            }
        }
    }
    assert(out =~= dir + rest);
    lemma_last_index_of_append_free(dir, rest, '/');
    if l == -1 {
        assert(dir =~= Seq::<char>::empty());
        assert(last_index_of(dir, '/') == -1);
    } else {
        assert(dir.len() == l + 1 && dir[l] == '/');
        assert(last_index_of(dir, '/') == l);
    }
    assert(last_index_of(out, '/') == l);
    assert(dir_of(out) =~= dir);
    assert(name_of(out) =~= rest);
}

} // verus!
