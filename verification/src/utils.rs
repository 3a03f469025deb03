//! Completion of a partly typed name against a list of candidates.

use vstd::prelude::*;
use vstd::std_specs::iter::IteratorSpec;
use crate::text::push_char;

verus! {

/// The first index from `i` on at which `a` and `b` differ or one of them
/// ends.
pub open spec fn common_from(a: Seq<char>, b: Seq<char>, i: nat) -> nat
    decreases a.len() - i,
{
    if i < a.len() && i < b.len() && a[i as int] == b[i as int] {
        common_from(a, b, i + 1)
    } else {
        i
    }
}

/// The greatest common prefix of `a` and `b`.
pub open spec fn spec_gcp(a: Seq<char>, b: Seq<char>) -> Seq<char> {
    a.take(common_from(a, b, 0) as int)
}

/// The common prefix of those of the first names that start with `prefix`,
/// if there is any such name.
pub open spec fn reduced(names: Seq<Seq<char>>, prefix: Seq<char>) -> Option<Seq<char>>
    decreases names.len(),
{
    if names.len() == 0 {
        None
    } else {
        let before = reduced(names.drop_last(), prefix);
        let last = names.last();
        if prefix.is_prefix_of(last) {
            Some(
                match before {
                    None => last,
                    Some(acc) => spec_gcp(acc, last),
                },
            )
        } else {
            before
        }
    }
}

/// What [`complete`] returns.
pub open spec fn spec_complete(names: Seq<Seq<char>>, prefix: Seq<char>) -> Seq<char> {
    match reduced(names, prefix) {
        Some(common) => common,
        None => prefix,
    }
}

/// From a place up to which `a` and `b` agree, `common_from` finds the
/// first place at which they no longer do.
proof fn lemma_common_from(a: Seq<char>, b: Seq<char>, i: nat)
    requires
        i <= a.len(),
        i <= b.len(),
        a.take(i as int) == b.take(i as int),
    ensures
        i <= common_from(a, b, i) <= a.len(),
        common_from(a, b, i) <= b.len(),
        a.take(common_from(a, b, i) as int) == b.take(common_from(a, b, i) as int),
        common_from(a, b, i) < a.len() && common_from(a, b, i) < b.len() ==> a[common_from(
            a,
            b,
            i,
        ) as int] != b[common_from(a, b, i) as int],
    decreases a.len() - i,
{
    if i < a.len() && i < b.len() && a[i as int] == b[i as int] {
        assert(a.take(i as int + 1) =~= a.take(i as int).push(a[i as int]));
        assert(b.take(i as int + 1) =~= b.take(i as int).push(b[i as int]));
        lemma_common_from(a, b, i + 1);
    }
}

/// The greatest common prefix is a prefix of both strings, and every string
/// that is a prefix of both is a prefix of it.
pub proof fn lemma_gcp_is_greatest(a: Seq<char>, b: Seq<char>, p: Seq<char>)
    ensures
        spec_gcp(a, b).is_prefix_of(a),
        spec_gcp(a, b).is_prefix_of(b),
        p.is_prefix_of(a) && p.is_prefix_of(b) ==> p.is_prefix_of(spec_gcp(a, b)),
{
    assert(a.take(0) =~= b.take(0));
    lemma_common_from(a, b, 0);
    let n = common_from(a, b, 0) as int;
    assert(a.take(n) =~= a.subrange(0, n));
    assert(b.take(n) =~= b.subrange(0, n));
    if p.is_prefix_of(a) && p.is_prefix_of(b) {
        if p.len() > n {
            assert(a[n] == p[n]);
            assert(b[n] == p[n]);
        }
        assert(p =~= spec_gcp(a, b).subrange(0, p.len() as int));
    }
}

/// Where some name starts with `prefix`, the completion starts with
/// `prefix`, is a prefix of each name that does, and every string that is
/// a prefix of each of these names is a prefix of the completion. Where
/// none does, the completion is `prefix` itself.
pub proof fn lemma_complete_is_greatest(names: Seq<Seq<char>>, prefix: Seq<char>, p: Seq<char>)
    ensures
        prefix.is_prefix_of(spec_complete(names, prefix)),
        forall|i: int|
            0 <= i < names.len() && prefix.is_prefix_of(#[trigger] names[i]) ==> spec_complete(
                names,
                prefix,
            ).is_prefix_of(names[i]),
        (forall|i: int|
            0 <= i < names.len() && prefix.is_prefix_of(#[trigger] names[i]) ==> p.is_prefix_of(
                names[i],
            )) && reduced(names, prefix) is Some ==> p.is_prefix_of(spec_complete(names, prefix)),
        reduced(names, prefix) is None <==> forall|i: int|
            0 <= i < names.len() ==> !prefix.is_prefix_of(#[trigger] names[i]),
    decreases names.len(),
{
    assert(prefix =~= prefix.subrange(0, prefix.len() as int));
    if names.len() > 0 {
        let front = names.drop_last();
        let last = names.last();
        lemma_complete_is_greatest(front, prefix, p);
        lemma_complete_is_greatest(front, prefix, prefix);
        assert(forall|i: int| 0 <= i < front.len() ==> front[i] == names[i]);
        if prefix.is_prefix_of(last) {
            match reduced(front, prefix) {
                None => {
                    assert(last =~= last.subrange(0, last.len() as int));
                },
                Some(acc) => {
                    lemma_gcp_is_greatest(acc, last, p);
                    lemma_gcp_is_greatest(acc, last, prefix);
                    let g = spec_gcp(acc, last);
                    assert forall|i: int|
                        0 <= i < names.len() && prefix.is_prefix_of(
                            #[trigger] names[i],
                        ) implies g.is_prefix_of(names[i]) by {
                        if i < front.len() {
                            assert(acc.is_prefix_of(front[i]));
                            lemma_prefix_transitive(g, acc, names[i]);
                        }
                    }
                },
            }
        } else {
            assert(forall|i: int|
                0 <= i < names.len() && prefix.is_prefix_of(#[trigger] names[i]) ==> i
                    < front.len());
        }
    }
}

/// A prefix of a prefix is a prefix.
proof fn lemma_prefix_transitive(a: Seq<char>, b: Seq<char>, c: Seq<char>)
    requires
        a.is_prefix_of(b),
        b.is_prefix_of(c),
    ensures
        a.is_prefix_of(c),
{
    assert(a =~= c.subrange(0, a.len() as int));
}

/// The greatest common prefix of two borrowed strings, character by
/// character.
fn common_prefix(s1: &str, s2: &str) -> (prefix: String)
    ensures
        prefix@ == spec_gcp(s1@, s2@),
{
    let mut it1 = s1.chars();
    let mut it2 = s2.chars();
    let mut prefix = String::new();
    let ghost mut n: nat = 0;
    assert(s1@.skip(0) =~= s1@);
    assert(s2@.skip(0) =~= s2@);
    assert(s1@.take(0) =~= Seq::<char>::empty());
    loop
        invariant_except_break
            it1.remaining() == s1@.skip(n as int),
            it2.remaining() == s2@.skip(n as int),
        invariant
            n <= s1@.len(),
            n <= s2@.len(),
            prefix@ == s1@.take(n as int),
            common_from(s1@, s2@, 0) == common_from(s1@, s2@, n),
        ensures
            prefix@ == spec_gcp(s1@, s2@),
        decreases s1@.len() - n,
    {
        let c1 = it1.next();
        let c2 = it2.next();
        match (c1, c2) {
            (Some(a), Some(b)) => {
                if a != b {
                    break ;
                }
                push_char(&mut prefix, a);
                proof {
                    assert(s1@.skip(n as int).drop_first() =~= s1@.skip(n as int + 1));
                    assert(s2@.skip(n as int).drop_first() =~= s2@.skip(n as int + 1));
                    assert(s1@.take(n as int + 1) =~= s1@.take(n as int).push(a));
                    n = n + 1;
                }
            },
            _ => {
                break ;
            },
        }
    }
    prefix
}

///Returns greatest common prefix of two strings
pub fn gcp(s1: String, s2: String) -> (prefix: String)
    ensures
        prefix@ == spec_gcp(s1@, s2@),
{
    common_prefix(s1.as_str(), s2.as_str())
}

/// Whether `s` starts with `prefix`.
pub fn starts_with(s: &str, prefix: &str) -> (res: bool)
    ensures
        res == prefix@.is_prefix_of(s@),
{
    let common = common_prefix(prefix, s);
    let whole = prefix.to_owned();
    proof {
        lemma_gcp_is_greatest(prefix@, s@, prefix@);
        assert(prefix@ =~= prefix@.subrange(0, prefix@.len() as int));
        if common@ == prefix@ {
            assert(prefix@.is_prefix_of(s@));
        }
        if prefix@.is_prefix_of(s@) {
            assert(prefix@.is_prefix_of(common@));
            assert(common@.is_prefix_of(prefix@));
            assert(common@ =~= prefix@);
        }
    }
    common == whole
}

///Returns greatest common prefix of all strings from the vector that contain specified prefix
///If none of the strings contain specified prefix returns it
pub fn complete(filenames: Vec<String>, prefix: &String) -> (res: String)
    ensures
        res@ == spec_complete(crate::io::owned_texts(filenames@), prefix@),
{
    let ghost names = crate::io::owned_texts(filenames@);
    let mut common: Option<String> = None;
    let mut i: usize = 0;
    assert(names.take(0) =~= Seq::empty());
    while i < filenames.len()
        invariant
            i <= filenames.len(),
            names == crate::io::owned_texts(filenames@),
            match common {
                Some(s) => reduced(names.take(i as int), prefix@) == Some(s@),
                None => reduced(names.take(i as int), prefix@) is None,
            },
        decreases filenames.len() - i,
    {
        let name = &filenames[i];
        proof {
            assert(names.take(i + 1).drop_last() =~= names.take(i as int));
            assert(names.take(i + 1).last() == name@);
        }
        if starts_with(name.as_str(), prefix.as_str()) {
            common = Some(
                match common {
                    None => name.clone(),
                    Some(acc) => gcp(acc, name.clone()),
                },
            );
        }
        i += 1;
    }
    assert(names.take(i as int) =~= names);
    match common {
        Some(s) => s,
        None => prefix.clone(),
    }
}

} // verus!
