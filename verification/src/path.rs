//! Paths, as the bytes that they are made of

use crate::text;
use vstd::prelude::*;

verus! {

/// A path
pub type PathBuf = Vec<u8>;

/// Whether a part of a path between slashes names something: empty parts, and
/// single dots, do not
pub open spec fn is_name(part: Seq<u8>) -> bool {
    part.len() != 0 && part != seq![46u8]
}

/// The parts that name something
pub open spec fn names(parts: Seq<Seq<u8>>) -> Seq<Seq<u8>>
    decreases parts.len(),
{
    if parts.len() == 0 {
        parts
    } else if is_name(parts.last()) {
        names(parts.drop_last()).push(parts.last())
    } else {
        names(parts.drop_last())
    }
}

/// What the components of a path begin with: a slash for an absolute path, and
/// a dot if that is how the path begins
pub open spec fn leading_component(path: Seq<u8>) -> Seq<Seq<u8>> {
    if path.len() > 0 && path[0] == 47 {
        seq![seq![47u8]]
    } else if text::split_at_all(path, 47)[0] == seq![46u8] {
        seq![seq![46u8]]
    } else {
        seq![]
    }
}

/// The components of a path
pub open spec fn components(path: Seq<u8>) -> Seq<Seq<u8>> {
    leading_component(path) + names(text::split_at_all(path, 47))
}

/// Whether a path is the path `base` or leads to something below it
pub open spec fn is_within(path: Seq<u8>, base: Seq<u8>) -> bool {
    components(base).is_prefix_of(components(path))
}

/// The last component of a path, if it is a name
pub open spec fn last_name(path: Seq<u8>) -> Option<Seq<u8>> {
    let parts = components(path);
    if parts.len() == 0 || parts.last() == seq![47u8] || parts.last() == seq![46u8]
        || parts.last() == seq![46u8, 46u8] {
        None
    } else {
        Some(parts.last())
    }
}

/// A path that is followed from another one
///
/// An absolute path leads to the same place from anywhere.
pub open spec fn joined(base: Seq<u8>, path: Seq<u8>) -> Seq<u8> {
    if path.len() > 0 && path[0] == 47 {
        path
    } else if base.len() > 0 && base.last() != 47 {
        base + seq![47u8] + path
    } else {
        base + path
    }
}

/// Several paths that are followed one after the other
pub open spec fn joined_all(paths: Seq<Seq<u8>>) -> Seq<u8>
    decreases paths.len(),
{
    if paths.len() == 0 {
        seq![]
    } else {
        joined(joined_all(paths.drop_last()), paths.last())
    }
}

/// All components but the first, if there is one
pub open spec fn without_first(components: Seq<Seq<u8>>) -> Seq<Seq<u8>> {
    if components.len() == 0 {
        components
    } else {
        components.drop_first()
    }
}

/// The components of a path
pub fn iter(path: &[u8]) -> (r: Vec<Vec<u8>>)
    ensures
        text::contents(r@) == components(path@),
{
    let parts = text::split(path, 47);
    let mut found: Vec<Vec<u8>> = Vec::new();
    let ghost split = text::split_at_all(path@, 47);
    assert(split.len() > 0 && parts@.len() == text::contents(parts@).len());
    assert(parts@[0]@ == text::contents(parts@)[0]);
    if path.len() > 0 && path[0] == 47 {
        let root: Vec<u8> = vec![47u8];
        assert(root@ =~= seq![47u8]);
        found.push(root);
    } else if is_dot(&parts[0]) {
        let current: Vec<u8> = vec![46u8];
        assert(current@ =~= seq![46u8]);
        found.push(current);
    }
    assert(text::contents(found@) =~= leading_component(path@));
    assert(split.take(0) =~= Seq::<Seq<u8>>::empty());
    for i in 0..parts.len()
        invariant
            text::contents(parts@) == split,
            text::contents(found@) == leading_component(path@) + names(split.take(i as int)),
    {
        let ghost before = found@;
        proof {
            assert(split.take(i + 1).drop_last() =~= split.take(i as int));
            assert(split.take(i + 1).last() == parts@[i as int]@);
        }
        if parts[i].len() != 0 && !is_dot(&parts[i]) {
            found.push(text::copy(&parts[i]));
            assert(text::contents(found@) =~= text::contents(before).push(parts@[i as int]@));
        }
    }
    assert(split.take(parts@.len() as int) =~= split);
    found
}

/// Whether a part of a path is a single dot
fn is_dot(part: &Vec<u8>) -> (r: bool)
    ensures
        r == (part@ == seq![46u8]),
{
    let r = part.len() == 1 && part[0] == 46;
    assert(r ==> part@ =~= seq![46u8]);
    r
}

/// Whether a path is the path `base` or leads to something below it
pub fn starts_with(path: &[u8], base: &[u8]) -> (r: bool)
    ensures
        r == is_within(path@, base@),
{
    let whole = iter(path);
    let beginning = iter(base);
    proof {
        assert(text::contents(whole@).len() == whole@.len());
        assert(text::contents(beginning@).len() == beginning@.len());
    }
    if whole.len() < beginning.len() {
        return false;
    }
    for i in 0..beginning.len()
        invariant
            text::contents(whole@) == components(path@),
            text::contents(beginning@) == components(base@),
            beginning@.len() <= whole@.len(),
            forall|j: int| 0 <= j < i ==> components(base@)[j] == components(path@)[j],
    {
        proof {
            assert(text::contents(whole@)[i as int] == whole@[i as int]@);
            assert(text::contents(beginning@)[i as int] == beginning@[i as int]@);
        }
        if !text::is_same(&whole[i], &beginning[i]) {
            assert(components(path@).subrange(0, components(base@).len() as int)[i as int]
                == components(path@)[i as int]);
            return false;
        }
    }
    assert(components(base@) =~= components(path@).subrange(0, components(base@).len() as int));
    true
}

/// The last component of a path, if it is a name
pub fn file_name(path: &[u8]) -> (r: Option<Vec<u8>>)
    ensures
        match (r, last_name(path@)) {
            (Some(name), Some(expected)) => name@ == expected,
            (None, None) => true,
            _ => false,
        },
{
    let mut parts = iter(path);
    let ghost all = parts@;
    proof {
        assert(text::contents(all).len() == all.len());
    }
    match parts.pop() {
        None => None,
        Some(last) => {
            assert(text::contents(all).last() == last@);
            let is_root = last.len() == 1 && last[0] == 47;
            let is_parent = last.len() == 2 && last[0] == 46 && last[1] == 46;
            proof {
                assert(is_root ==> last@ =~= seq![47u8]);
                assert(is_parent ==> last@ =~= seq![46u8, 46u8]);
            }
            if is_root || is_parent || is_dot(&last) {
                None
            } else {
                Some(last)
            }
        },
    }
}

/// Follow a path from another one
pub fn join(base: &[u8], path: &[u8]) -> (r: PathBuf)
    ensures
        r@ == joined(base@, path@),
{
    let mut whole: Vec<u8> = Vec::new();
    if !(path.len() > 0 && path[0] == 47) {
        whole.extend_from_slice(base);
        if base.len() > 0 && base[base.len() - 1] != 47 {
            whole.push(47);
        }
    }
    whole.extend_from_slice(path);
    assert(whole@ =~= joined(base@, path@));
    whole
}

/// Follow several paths one after the other
pub fn from_iter(paths: &Vec<PathBuf>) -> (r: PathBuf)
    ensures
        r@ == joined_all(text::contents(paths@)),
{
    let mut whole: Vec<u8> = Vec::new();
    let ghost all = text::contents(paths@);
    assert(all.take(0) =~= Seq::<Seq<u8>>::empty());
    assert(whole@ =~= Seq::<u8>::empty());
    for i in 0..paths.len()
        invariant
            all == text::contents(paths@),
            whole@ == joined_all(all.take(i as int)),
    {
        proof {
            assert(all.take(i + 1).drop_last() =~= all.take(i as int));
            assert(all.take(i + 1).last() == paths@[i as int]@);
        }
        whole = join(&whole, &paths[i]);
    }
    assert(all.take(paths@.len() as int) =~= all);
    whole
}

proof fn names_of_concatenation(before: Seq<Seq<u8>>, after: Seq<Seq<u8>>)
    ensures
        names(before + after) == names(before) + names(after),
    decreases after.len(),
{
    if after.len() == 0 {
        assert(before + after =~= before);
        assert(names(before) + names(after) =~= names(before));
    } else {
        names_of_concatenation(before, after.drop_last());
        assert((before + after).drop_last() =~= before + after.drop_last());
        assert(names(before + after) =~= names(before) + names(after));
    }
}

/// A relative path that is followed from another path leads to something
/// within it: the components of the other path come first, then the names in
/// the relative path.
pub proof fn joined_path_is_within_base(base: Seq<u8>, path: Seq<u8>)
    requires
        base.len() > 0,
        path.len() == 0 || path[0] != 47,
    ensures
        components(joined(base, path)) == components(base) + names(text::split_at_all(path, 47)),
        is_within(joined(base, path), base),
{
    let parts = text::split_at_all(path, 47);
    let whole = joined(base, path);
    let stem = if base.last() != 47 {
        base
    } else {
        base.drop_last()
    };
    assert(whole =~= stem + seq![47u8] + path);
    text::split_of_concatenation(stem, path, 47);
    names_of_concatenation(text::split_at_all(stem, 47), parts);
    let none = Seq::<Seq<u8>>::empty();
    if base.last() == 47 {
        assert(base =~= stem + seq![47u8] + Seq::<u8>::empty());
        text::split_of_concatenation(stem, Seq::empty(), 47);
        let end = text::split_at_all(Seq::<u8>::empty(), 47);
        assert(end =~= seq![Seq::<u8>::empty()]);
        assert(end.drop_last() =~= none);
        assert(names(none) =~= none);
        assert(!is_name(end.last()));
        assert(names(end) == names(none));
        names_of_concatenation(text::split_at_all(stem, 47), end);
        assert(names(text::split_at_all(base, 47)) =~= names(text::split_at_all(stem, 47)));
    }
    assert(text::split_at_all(stem, 47).len() > 0);
    assert(whole[0] == base[0]);
    assert(leading_component(whole) == leading_component(base));
    assert(components(whole) =~= components(base) + names(parts));
    assert(components(base) =~= components(whole).subrange(0, components(base).len() as int));
}

/// What follows a slash in a path that does not begin with it adds its names to
/// the components before it.
proof fn lemma_components_after_slash(base: Seq<u8>, path: Seq<u8>)
    requires
        base.len() > 0,
    ensures
        components(base + seq![47u8] + path) == components(base) + names(
            text::split_at_all(path, 47),
        ),
{
    let whole = base + seq![47u8] + path;
    text::split_of_concatenation(base, path, 47);
    names_of_concatenation(text::split_at_all(base, 47), text::split_at_all(path, 47));
    assert(text::split_at_all(base, 47).len() > 0);
    assert(whole[0] == base[0]);
    assert(leading_component(whole) == leading_component(base));
    assert(components(whole) =~= components(base) + names(text::split_at_all(path, 47)));
}

/// The names in a part without slashes: itself, unless it is empty or a dot.
proof fn lemma_names_of_part(part: Seq<u8>)
    requires
        forall|i: int| 0 <= i < part.len() ==> part[i] != 47,
    ensures
        text::split_at_all(part, 47) == seq![part],
        names(text::split_at_all(part, 47)) == if part.len() == 0 || part == seq![46u8] {
            seq![]
        } else {
            seq![part]
        },
{
    text::text_without_separator_is_one_part(part, 47);
    let parts = seq![part];
    let none = Seq::<Seq<u8>>::empty();
    assert(parts.drop_last() =~= none);
    assert(names(none) =~= none);
    assert(names(parts) =~= if part.len() == 0 || part == seq![46u8] {
        none
    } else {
        parts
    });
}

/// A path without slashes is its only component, unless it is empty. A slash in
/// front of it is a component of its own, behind which a dot does not count.
pub proof fn first_components(part: Seq<u8>)
    requires
        forall|i: int| 0 <= i < part.len() ==> part[i] != 47,
    ensures
        components(part) == if part.len() == 0 {
            seq![]
        } else {
            seq![part]
        },
        components(seq![47u8] + part) == if part.len() == 0 || part == seq![46u8] {
            seq![seq![47u8]]
        } else {
            seq![seq![47u8], part]
        },
{
    lemma_names_of_part(part);
    assert(components(part) =~= if part.len() == 0 {
        seq![]
    } else {
        seq![part]
    });
    let empty = Seq::<u8>::empty();
    lemma_names_of_part(empty);
    assert(seq![47u8] + part =~= empty + seq![47u8] + part);
    text::split_of_concatenation(empty, part, 47);
    names_of_concatenation(text::split_at_all(empty, 47), text::split_at_all(part, 47));
    assert(components(seq![47u8] + part) =~= if part.len() == 0 || part == seq![46u8] {
        seq![seq![47u8]]
    } else {
        seq![seq![47u8], part]
    });
}

/// A part behind a further slash is a further component. Nothing, or a dot, is
/// none.
pub proof fn further_component(base: Seq<u8>, part: Seq<u8>)
    requires
        base.len() > 0,
        forall|i: int| 0 <= i < part.len() ==> part[i] != 47,
    ensures
        components(base + seq![47u8] + part) == if part.len() == 0 || part == seq![46u8] {
            components(base)
        } else {
            components(base).push(part)
        },
{
    lemma_names_of_part(part);
    lemma_components_after_slash(base, part);
    assert(components(base + seq![47u8] + part) =~= if part.len() == 0 || part == seq![46u8] {
        components(base)
    } else {
        components(base).push(part)
    });
}

/// A path is within another one exactly if it begins with all of its components,
/// not only with its bytes.
pub proof fn within_is_about_components(path: Seq<u8>, base: Seq<u8>)
    ensures
        is_within(path, base) <==> components(base).len() <= components(path).len() && forall|
            i: int,
        |
            0 <= i < components(base).len() ==> #[trigger] components(base)[i] == components(
                path,
            )[i],
{
    let beginning = components(base);
    let whole = components(path);
    if beginning.len() <= whole.len() {
        let same = whole.subrange(0, beginning.len() as int);
        assert(forall|i: int| 0 <= i < beginning.len() ==> #[trigger] whole[i] == same[i]);
        if forall|i: int| 0 <= i < beginning.len() ==> #[trigger] beginning[i] == whole[i] {
            assert(beginning =~= same);
        }
        if is_within(path, base) {
            assert forall|i: int| 0 <= i < beginning.len() implies #[trigger] beginning[i]
                == whole[i] by {
                assert(same[i] == whole[i]);
            }
        }
    }
}

/// The last component of a path is its name, unless it is a slash, a dot or two
/// dots. A path without components has none.
pub proof fn last_component_is_name(path: Seq<u8>)
    ensures
        match last_name(path) {
            Some(name) => {
                &&& components(path).len() > 0
                &&& name == components(path)[components(path).len() - 1]
                &&& name != seq![47u8]
                &&& name != seq![46u8]
                &&& name != seq![46u8, 46u8]
            },
            None => components(path).len() == 0 || {
                let last = components(path)[components(path).len() - 1];
                last == seq![47u8] || last == seq![46u8] || last == seq![46u8, 46u8]
            },
        },
{
}

/// What comes behind the last slash of a path is its name, if it is one.
pub proof fn name_comes_last(base: Seq<u8>, name: Seq<u8>)
    requires
        name.len() > 0,
        name != seq![46u8],
        name != seq![46u8, 46u8],
        forall|i: int| 0 <= i < name.len() ==> name[i] != 47,
    ensures
        last_name(name) == Some(name),
        last_name(base + seq![47u8] + name) == Some(name),
{
    first_components(name);
    if base.len() > 0 {
        further_component(base, name);
    } else {
        assert(base + seq![47u8] + name =~= seq![47u8] + name);
    }
    assert(name[0] != 47);
}

/// An absolute path is followed from the root, and so is any path from the empty
/// one. A relative one comes behind the slash at the end of the other path, which
/// is added if it is missing.
pub proof fn paths_are_joined_with_slash(base: Seq<u8>, path: Seq<u8>)
    ensures
        path.len() > 0 && path[0] == 47 ==> joined(base, path) == path,
        joined(seq![], path) == path,
        !(path.len() > 0 && path[0] == 47) ==> joined(base + seq![47u8], path) == base
            + seq![47u8] + path,
        !(path.len() > 0 && path[0] == 47) && base.len() > 0 && base[base.len() - 1] != 47
            ==> joined(base, path) == base + seq![47u8] + path,
{
    assert(Seq::<u8>::empty() + path =~= path);
    assert((base + seq![47u8]).last() == 47);
}

/// Several paths are followed in their order.
pub proof fn paths_are_followed_in_order(paths: Seq<Seq<u8>>, path: Seq<u8>)
    ensures
        joined_all(seq![]) == Seq::<u8>::empty(),
        joined_all(paths.push(path)) == joined(joined_all(paths), path),
{
    assert(paths.push(path).drop_last() =~= paths);
}

/// All components but the first are left, in their order.
pub proof fn first_component_is_left_out(first: Seq<u8>, others: Seq<Seq<u8>>)
    ensures
        without_first(seq![first] + others) == others,
        without_first(seq![]) == Seq::<Seq<u8>>::empty(),
{
    assert((seq![first] + others).drop_first() =~= others);
}

/// Whether components are those of a relative path without dots at its beginning
spec fn are_plain(parts: Seq<Seq<u8>>) -> bool {
    forall|i: int|
        0 <= i < parts.len() ==> is_name(#[trigger] parts[i]) && !parts[i].contains(47u8)
}

proof fn lemma_parts_have_no_slash(path: Seq<u8>, i: int)
    requires
        0 <= i < text::split_at_all(path, 47).len(),
    ensures
        !text::split_at_all(path, 47)[i].contains(47u8),
    decreases path.len(),
{
    if path.contains(47u8) {
        let n = path.index_of_first(47u8)->0;
        path.index_of_first_ensures(47u8);
        let before = path.take(n);
        let after = path.skip(n + 1);
        assert(path =~= before + seq![47u8] + after);
        text::split_of_concatenation(before, after, 47);
        assert(!before.contains(47u8));
        text::text_without_separator_is_one_part(before, 47);
        if i > 0 {
            lemma_parts_have_no_slash(after, i - 1);
        }
    } else {
        text::text_without_separator_is_one_part(path, 47);
    }
}

proof fn lemma_names_are_plain(parts: Seq<Seq<u8>>)
    requires
        forall|i: int| 0 <= i < parts.len() ==> !(#[trigger] parts[i]).contains(47u8),
    ensures
        are_plain(names(parts)),
    decreases parts.len(),
{
    if parts.len() > 0 {
        let earlier = parts.drop_last();
        assert forall|i: int| 0 <= i < earlier.len() implies !(#[trigger] earlier[i]).contains(
            47u8,
        ) by {
            assert(earlier[i] == parts[i]);
        }
        lemma_names_are_plain(earlier);
        assert(!parts[parts.len() - 1].contains(47u8));
    }
}

proof fn lemma_joined_names(parts: Seq<Seq<u8>>)
    requires
        are_plain(parts),
    ensures
        names(text::split_at_all(joined_all(parts), 47)) == parts,
        parts.len() > 0 ==> {
            let whole = joined_all(parts);
            whole.len() > 0 && whole[0] != 47 && whole[whole.len() - 1] != 47
        },
    decreases parts.len(),
{
    if parts.len() == 0 {
        lemma_names_of_part(Seq::empty());
    } else {
        let earlier = parts.drop_last();
        let last = parts.last();
        assert(last == parts[parts.len() - 1]);
        assert forall|i: int| 0 <= i < earlier.len() implies is_name(#[trigger] earlier[i])
            && !earlier[i].contains(47u8) by {
            assert(earlier[i] == parts[i]);
        }
        assert forall|i: int| 0 <= i < last.len() implies last[i] != 47 by {
            assert(last.contains(last[i]));
        }
        lemma_joined_names(earlier);
        lemma_names_of_part(last);
        let before = joined_all(earlier);
        if earlier.len() == 0 {
            assert(before + last =~= last);
            assert(seq![last] =~= parts);
        } else {
            text::split_of_concatenation(before, last, 47);
            names_of_concatenation(text::split_at_all(before, 47), text::split_at_all(last, 47));
            assert(earlier + seq![last] =~= parts);
        }
    }
}

/// Following the components of an absolute path behind its first slash from any
/// other path leads to the same names below that path.
pub proof fn absolute_path_is_moved(base: Seq<u8>, path: Seq<u8>)
    requires
        base.len() > 0,
        path.len() > 0,
        path[0] == 47,
    ensures
        components(joined(base, joined_all(without_first(components(path))))) == components(base)
            + components(path).skip(1),
{
    let parts = text::split_at_all(path, 47);
    assert forall|i: int| 0 <= i < parts.len() implies !(#[trigger] parts[i]).contains(47u8) by {
        lemma_parts_have_no_slash(path, i);
    }
    lemma_names_are_plain(parts);
    let rest = names(parts);
    assert(components(path).drop_first() =~= rest);
    assert(components(path).skip(1) =~= rest);
    lemma_joined_names(rest);
    joined_path_is_within_base(base, joined_all(rest));
}

} // verus!
