use vstd::prelude::*;

verus! {

/// The segments of a dotted path: the parts between its dots, in order.
/// A path without a dot is one segment; two dots in a row enclose an empty
/// segment.
pub open spec fn split_path(path: Seq<char>) -> Seq<Seq<char>>
    decreases path.len(),
{
    if path.len() == 0 {
        seq![Seq::<char>::empty()]
    } else {
        let before = split_path(path.drop_last());
        if path.last() == '.' {
            before.push(Seq::<char>::empty())
        } else {
            before.update(before.len() - 1, before.last().push(path.last()))
        }
    }
}

/// The characters of each string of a sequence.
pub open spec fn texts(strings: Seq<String>) -> Seq<Seq<char>> {
    strings.map_values(|s: String| s@)
}

/// A path has at least one segment.
pub proof fn lemma_split_path_non_empty(path: Seq<char>)
    ensures
        split_path(path).len() >= 1,
    decreases path.len(),
{
    if path.len() > 0 {
        lemma_split_path_non_empty(path.drop_last());
    }
}

/// A path without a dot is its own single segment.
pub proof fn lemma_split_path_of_plain(path: Seq<char>)
    requires
        forall|i: int| 0 <= i < path.len() ==> path[i] != '.',
    ensures
        split_path(path) == seq![path],
    decreases path.len(),
{
    if path.len() > 0 {
        lemma_split_path_of_plain(path.drop_last());
        let before = split_path(path.drop_last());
        assert(before.update(before.len() - 1, before.last().push(path.last())) =~= seq![path]) by {
            assert(path.drop_last().push(path.last()) =~= path);
        }
    } else {
        assert(path =~= Seq::<char>::empty());
    }
}

/// The segments of two paths joined by a dot are the segments of the first
/// followed by those of the second.
pub proof fn lemma_split_path_of_joined(prefix: Seq<char>, rest: Seq<char>)
    ensures
        split_path(prefix + seq!['.'] + rest) == split_path(prefix) + split_path(rest),
    decreases rest.len(),
{
    let joined = prefix + seq!['.'] + rest;
    if rest.len() == 0 {
        assert(joined.drop_last() =~= prefix);
        assert(split_path(prefix).push(Seq::<char>::empty()) =~= split_path(prefix) + split_path(
            rest,
        ));
    } else {
        assert(joined.drop_last() =~= prefix + seq!['.'] + rest.drop_last());
        assert(joined.last() == rest.last());
        lemma_split_path_of_joined(prefix, rest.drop_last());
        lemma_split_path_non_empty(rest.drop_last());
        let before = split_path(prefix) + split_path(rest.drop_last());
        if rest.last() == '.' {
            assert(before.push(Seq::<char>::empty()) =~= split_path(prefix) + split_path(
                rest.drop_last(),
            ).push(Seq::<char>::empty()));
        } else {
            let tail = split_path(rest.drop_last());
            assert(before.update(before.len() - 1, before.last().push(rest.last()))
                =~= split_path(prefix) + tail.update(
                tail.len() - 1,
                tail.last().push(rest.last()),
            ));
        }
    }
}

/// Splits a dotted path into its segments.
pub fn segments(path: &str) -> (parts: Vec<String>)
    ensures
        texts(parts@) == split_path(path@),
        parts@.len() >= 1,
{
    let n = path.unicode_len();
    let mut parts: Vec<String> = Vec::new();
    let mut start: usize = 0;
    let mut i: usize = 0;
    proof {
        assert(path@.take(0) =~= Seq::<char>::empty());
        assert(texts(parts@).push(path@.subrange(0, 0)) =~= seq![Seq::<char>::empty()]);
    }
    while i < n
        invariant
            start <= i <= n,
            n == path@.len(),
            split_path(path@.take(i as int)) == texts(parts@).push(
                path@.subrange(start as int, i as int),
            ),
        decreases n - i,
    {
        let c = path.get_char(i);
        proof {
            assert(path@.take(i + 1).drop_last() =~= path@.take(i as int));
            assert(path@.take(i + 1).last() == path@[i as int]);
        }
        if c == '.' {
            let part = String::from_str(path.substring_char(start, i));
            proof {
                assert(texts(parts@.push(part)) =~= texts(parts@).push(part@));
                assert(path@.subrange(i + 1, i + 1) =~= Seq::<char>::empty());
            }
            parts.push(part);
            start = i + 1;
        } else {
            proof {
                assert(path@.subrange(start as int, i + 1) =~= path@.subrange(
                    start as int,
                    i as int,
                ).push(path@[i as int]));
                let before = texts(parts@).push(path@.subrange(start as int, i as int));
                assert(before.update(before.len() - 1, before.last().push(path@[i as int]))
                    =~= texts(parts@).push(path@.subrange(start as int, i + 1)));
            }
        }
        i += 1;
    }
    let part = String::from_str(path.substring_char(start, n));
    proof {
        assert(path@.take(n as int) =~= path@);
        assert(texts(parts@.push(part)) =~= texts(parts@).push(part@));
    }
    parts.push(part);
    parts
}

/// Whether a character may stand in a segment of a path: a letter or a
/// digit of ASCII, a space, an underscore or a hyphen.
pub open spec fn path_char(c: char) -> bool {
    ||| 'a' <= c <= 'z'
    ||| 'A' <= c <= 'Z'
    ||| '0' <= c <= '9'
    ||| c == ' '
    ||| c == '_'
    ||| c == '-'
}

/// Whether a segment is an identifier: not empty, and made of such characters.
pub open spec fn identifier(segment: Seq<char>) -> bool {
    segment.len() > 0 && forall|i: int| 0 <= i < segment.len() ==> path_char(#[trigger] segment[i])
}

/// Whether a path is well formed: each of its segments is an identifier. So
/// the empty path, a path that begins or ends with a dot, and one with two
/// dots in a row are not well formed.
pub open spec fn well_formed(path: Seq<char>) -> bool {
    forall|i: int| 0 <= i < split_path(path).len() ==> identifier(#[trigger] split_path(path)[i])
}

/// Whether `segment` is an identifier.
pub fn is_identifier(segment: &str) -> (valid: bool)
    ensures
        valid == identifier(segment@),
{
    let n = segment.unicode_len();
    if n == 0 {
        return false;
    }
    let mut i: usize = 0;
    while i < n
        invariant
            i <= n,
            n == segment@.len(),
            forall|j: int| 0 <= j < i ==> path_char(#[trigger] segment@[j]),
        decreases n - i,
    {
        let c = segment.get_char(i);
        let allowed = ('a' <= c && c <= 'z') || ('A' <= c && c <= 'Z') || ('0' <= c && c <= '9')
            || c == ' ' || c == '_' || c == '-';
        if !allowed {
            assert(!path_char(segment@[i as int]));
            return false;
        }
        i += 1;
    }
    true
}

/// The segments of a path, where the path is well formed.
pub fn parse(path: &str) -> (parts: Option<Vec<String>>)
    ensures
        parts is Some <==> well_formed(path@),
        parts matches Some(p) ==> texts(p@) == split_path(path@) && p@.len() >= 1,
{
    let parts = segments(path);
    let mut i: usize = 0;
    while i < parts.len()
        invariant
            i <= parts.len(),
            texts(parts@) == split_path(path@),
            forall|j: int| 0 <= j < i ==> identifier(#[trigger] split_path(path@)[j]),
        decreases parts.len() - i,
    {
        assert(texts(parts@)[i as int] == parts@[i as int]@);
        if !is_identifier(parts[i].as_str()) {
            assert(!identifier(split_path(path@)[i as int]));
            return None;
        }
        i += 1;
    }
    Some(parts)
}

} // verus!
