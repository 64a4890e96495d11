//! The class composer: builds the ordered, duplicate-free class set of a block
//! on top of `yew::Classes`.

use vstd::prelude::*;
use yew::Classes;

verus! {

/// `yew::Classes`, an insertion-ordered set of class tokens.
#[verifier::external_type_specification]
#[verifier::external_body]
pub struct ExClasses(yew::Classes);

/// The tokens that a class set holds, in the order in which they were inserted.
pub uninterp spec fn class_tokens(c: Classes) -> Seq<Seq<char>>;

/// The characters with the Unicode property `White_Space`.
pub open spec fn is_space(c: char) -> bool {
    let u = c as u32;
    ||| 0x09 <= u <= 0x0d
    ||| u == 0x20
    ||| u == 0x85
    ||| u == 0xa0
    ||| u == 0x1680
    ||| 0x2000 <= u <= 0x200a
    ||| u == 0x2028
    ||| u == 0x2029
    ||| u == 0x202f
    ||| u == 0x205f
    ||| u == 0x3000
}

/// A class token is a non-empty string without white space: it names one class.
pub open spec fn is_token(s: Seq<char>) -> bool {
    s.len() > 0 && forall|i: int| 0 <= i < s.len() ==> !is_space(#[trigger] s[i])
}

/// `acc` followed by the items of `more` that it does not hold yet, each once,
/// in the order of `more`.
pub open spec fn append_new(acc: Seq<Seq<char>>, more: Seq<Seq<char>>) -> Seq<Seq<char>>
    decreases more.len(),
{
    if more.len() == 0 {
        acc
    } else {
        let before = append_new(acc, more.drop_last());
        if before.contains(more.last()) {
            before
        } else {
            before.push(more.last())
        }
    }
}

/// The tokens of an optional class set: none where it is absent.
pub open spec fn extra_tokens(extra: Option<Classes>) -> Seq<Seq<char>> {
    match extra {
        Some(c) => class_tokens(c),
        None => Seq::empty(),
    }
}

/// A conditional class: `token` is part of the class set where `condition` holds.
pub struct Modifier {
    pub condition: bool,
    pub token: &'static str,
}

impl View for Modifier {
    type V = (bool, Seq<char>);

    open spec fn view(&self) -> (bool, Seq<char>) {
        (self.condition, self.token@)
    }
}

/// The views of a list of modifiers.
pub open spec fn modifier_views(mods: Seq<Modifier>) -> Seq<(bool, Seq<char>)> {
    mods.map_values(|m: Modifier| m@)
}

/// Whether the base and the token of every modifier whose condition holds are
/// class tokens.
pub open spec fn well_formed(base: Seq<char>, mods: Seq<(bool, Seq<char>)>) -> bool {
    &&& is_token(base)
    &&& forall|i: int| 0 <= i < mods.len() && (#[trigger] mods[i]).0 ==> is_token(mods[i].1)
}

/// The composed class set: the base token, then the caller's tokens, then the
/// token of each modifier whose condition holds, nothing twice.
pub open spec fn composed(
    base: Seq<char>,
    extra: Seq<Seq<char>>,
    mods: Seq<(bool, Seq<char>)>,
) -> Seq<Seq<char>>
    decreases mods.len(),
{
    if mods.len() == 0 {
        append_new(seq![base], extra)
    } else {
        let before = composed(base, extra, mods.drop_last());
        if mods.last().0 {
            append_new(before, seq![mods.last().1])
        } else {
            before
        }
    }
}

/// `Classes::from` on an owned string, which splits the string at white space.
/// Of a string that is one token, the result holds that token alone.
#[verifier::external_body]
pub(crate) fn classes_from(token: &str) -> (r: Classes)
    ensures
        is_token(token@) ==> class_tokens(r) == seq![token@],
{
    Classes::from(token.to_owned())
}

/// `Classes::push` with another class set: its tokens are inserted one by one,
/// in their order; one that is already present is skipped and keeps its place.
#[verifier::external_body]
pub(crate) fn classes_push(c: &mut Classes, more: &Classes)
    ensures
        class_tokens(*final(c)) == append_new(class_tokens(*old(c)), class_tokens(*more)),
{
    c.push(more.clone())
}

/// `Classes::eq`: two class sets are equal where they hold the same tokens in
/// the same order.
#[verifier::external_body]
pub(crate) fn classes_eq(a: &Classes, b: &Classes) -> (r: bool)
    ensures
        r == (class_tokens(*a) == class_tokens(*b)),
{
    a == b
}

/// A token is in `append_new(acc, more)` exactly where it is in one of the two.
pub proof fn lemma_append_new_contains(acc: Seq<Seq<char>>, more: Seq<Seq<char>>, t: Seq<char>)
    ensures
        append_new(acc, more).contains(t) <==> (acc.contains(t) || more.contains(t)),
    decreases more.len(),
{
    if more.len() > 0 {
        let head = more.drop_last();
        let before = append_new(acc, head);
        lemma_append_new_contains(acc, head, t);
        lemma_append_new_contains(acc, head, more.last());
        if more.contains(t) {
            let i = choose|i: int| 0 <= i < more.len() && more[i] == t;
            if i < more.len() - 1 {
                assert(head[i] == t);
            }
        }
        if head.contains(t) {
            let i = choose|i: int| 0 <= i < head.len() && head[i] == t;
            assert(more[i] == t);
        }
        assert(more[more.len() - 1] == more.last());
        if !before.contains(more.last()) {
            let after = before.push(more.last());
            assert(after[after.len() - 1] == more.last());
            if before.contains(t) {
                let i = choose|i: int| 0 <= i < before.len() && before[i] == t;
                assert(after[i] == t);
            }
            if after.contains(t) {
                let i = choose|i: int| 0 <= i < after.len() && after[i] == t;
                if i < before.len() {
                    assert(before[i] == t);
                }
            }
        }
    }
}

/// `append_new` keeps `acc` as it is, at the front.
pub proof fn lemma_append_new_prefix(acc: Seq<Seq<char>>, more: Seq<Seq<char>>)
    ensures
        acc.len() <= append_new(acc, more).len(),
        append_new(acc, more).subrange(0, acc.len() as int) == acc,
    decreases more.len(),
{
    if more.len() > 0 {
        lemma_append_new_prefix(acc, more.drop_last());
        let before = append_new(acc, more.drop_last());
        assert(before.push(more.last()).subrange(0, acc.len() as int) =~= before.subrange(
            0,
            acc.len() as int,
        ));
    } else {
        assert(acc.subrange(0, acc.len() as int) =~= acc);
    }
}

/// `append_new` adds no duplicate.
pub proof fn lemma_append_new_no_duplicates(acc: Seq<Seq<char>>, more: Seq<Seq<char>>)
    requires
        acc.no_duplicates(),
    ensures
        append_new(acc, more).no_duplicates(),
    decreases more.len(),
{
    if more.len() > 0 {
        lemma_append_new_no_duplicates(acc, more.drop_last());
    }
}

/// Whether some modifier of `mods` holds and carries the token `t`.
pub open spec fn enabled(mods: Seq<(bool, Seq<char>)>, t: Seq<char>) -> bool {
    exists|i: int| 0 <= i < mods.len() && (#[trigger] mods[i]).0 && mods[i].1 == t
}

/// A token is in the composed class set exactly where it is the base token,
/// one of the caller's tokens, or the token of a modifier whose condition holds.
pub proof fn lemma_composed_contains(
    base: Seq<char>,
    extra: Seq<Seq<char>>,
    mods: Seq<(bool, Seq<char>)>,
    t: Seq<char>,
)
    ensures
        composed(base, extra, mods).contains(t) <==> (t == base || extra.contains(t) || enabled(
            mods,
            t,
        )),
    decreases mods.len(),
{
    if mods.len() == 0 {
        lemma_append_new_contains(seq![base], extra, t);
        assert(seq![base][0] == base);
    } else {
        let head = mods.drop_last();
        let m = mods.last();
        lemma_composed_contains(base, extra, head, t);
        if enabled(head, t) {
            let i = choose|i: int| 0 <= i < head.len() && (#[trigger] head[i]).0 && head[i].1 == t;
            assert(mods[i].0 && mods[i].1 == t);
        }
        if enabled(mods, t) {
            let i = choose|i: int| 0 <= i < mods.len() && (#[trigger] mods[i]).0 && mods[i].1 == t;
            if i < mods.len() - 1 {
                assert(head[i].0 && head[i].1 == t);
            }
        }
        if m.0 {
            lemma_append_new_contains(composed(base, extra, head), seq![m.1], t);
            assert(seq![m.1][0] == m.1);
            if m.1 == t {
                assert(mods[mods.len() - 1].0 && mods[mods.len() - 1].1 == t);
            }
        }
    }
}

/// The composed class set starts with the base token and holds nothing twice.
pub proof fn lemma_composed_base_first(
    base: Seq<char>,
    extra: Seq<Seq<char>>,
    mods: Seq<(bool, Seq<char>)>,
)
    ensures
        composed(base, extra, mods).len() >= 1,
        composed(base, extra, mods)[0] == base,
        composed(base, extra, mods).no_duplicates(),
    decreases mods.len(),
{
    if mods.len() == 0 {
        lemma_append_new_prefix(seq![base], extra);
        lemma_append_new_no_duplicates(seq![base], extra);
        assert(append_new(seq![base], extra).subrange(0, 1)[0] == base);
    } else {
        let before = composed(base, extra, mods.drop_last());
        lemma_composed_base_first(base, extra, mods.drop_last());
        if mods.last().0 {
            lemma_append_new_prefix(before, seq![mods.last().1]);
            lemma_append_new_no_duplicates(before, seq![mods.last().1]);
            let after = append_new(before, seq![mods.last().1]);
            assert(after.subrange(0, before.len() as int)[0] == after[0]);
        }
    }
}

/// The composed class set holds the base token and every token that the caller
/// supplied, whatever those are, and no token twice.
pub proof fn lemma_composed_superset(
    base: Seq<char>,
    extra: Seq<Seq<char>>,
    mods: Seq<(bool, Seq<char>)>,
)
    ensures
        composed(base, extra, mods).contains(base),
        forall|t: Seq<char>| #[trigger] extra.contains(t) ==> composed(base, extra, mods).contains(t),
        composed(base, extra, mods).no_duplicates(),
{
    lemma_composed_contains(base, extra, mods, base);
    lemma_composed_base_first(base, extra, mods);
    assert forall|t: Seq<char>| #[trigger] extra.contains(t) implies composed(
        base,
        extra,
        mods,
    ).contains(t) by {
        lemma_composed_contains(base, extra, mods, t);
    }
}

/// Switching one modifier on or off changes the presence of its token and of no
/// other. `on` and `off` are two lists of modifiers that differ in the condition
/// of the modifier at `k` alone. With it on, its token is present; with it off,
/// the token is present only where the base, the caller or another modifier
/// supplies it; every other token is present in both class sets or in neither.
pub proof fn lemma_modifier_toggle(
    base: Seq<char>,
    extra: Seq<Seq<char>>,
    on: Seq<(bool, Seq<char>)>,
    off: Seq<(bool, Seq<char>)>,
    k: int,
)
    requires
        on.len() == off.len(),
        0 <= k < on.len(),
        on[k].0,
        !off[k].0,
        on[k].1 == off[k].1,
        forall|i: int| 0 <= i < on.len() && i != k ==> on[i] == off[i],
    ensures
        composed(base, extra, on).contains(on[k].1),
        composed(base, extra, off).contains(on[k].1) <==> (base == on[k].1 || extra.contains(
            on[k].1,
        ) || enabled(off, on[k].1)),
        forall|t: Seq<char>|
            t != on[k].1 ==> (#[trigger] composed(base, extra, on).contains(t) <==> composed(
                base,
                extra,
                off,
            ).contains(t)),
{
    let token = on[k].1;
    lemma_composed_contains(base, extra, on, token);
    lemma_composed_contains(base, extra, off, token);
    assert(on[k].0 && on[k].1 == token);
    assert forall|t: Seq<char>| t != token implies (#[trigger] composed(base, extra, on).contains(
        t,
    ) <==> composed(base, extra, off).contains(t)) by {
        lemma_composed_contains(base, extra, on, t);
        lemma_composed_contains(base, extra, off, t);
        if enabled(on, t) {
            let i = choose|i: int| 0 <= i < on.len() && (#[trigger] on[i]).0 && on[i].1 == t;
            assert(off[i].0 && off[i].1 == t);
        }
        if enabled(off, t) {
            let i = choose|i: int| 0 <= i < off.len() && (#[trigger] off[i]).0 && off[i].1 == t;
            assert(on[i].0 && on[i].1 == t);
        }
    }
}

/// Whether a character is white space.
pub fn is_space_char(c: char) -> (r: bool)
    ensures
        r == is_space(c),
{
    let u: u32 = c as u32;
    (0x09 <= u && u <= 0x0d) || u == 0x20 || u == 0x85 || u == 0xa0 || u == 0x1680 || (0x2000 <= u
        && u <= 0x200a) || u == 0x2028 || u == 0x2029 || u == 0x202f || u == 0x205f || u == 0x3000
}

/// Whether a string is a class token: not empty, and without white space.
pub fn is_class_token(s: &str) -> (r: bool)
    ensures
        r == is_token(s@),
{
    let n = s.unicode_len();
    if n == 0 {
        return false;
    }
    let mut i: usize = 0;
    while i < n
        invariant
            n == s@.len(),
            0 <= i <= n,
            forall|j: int| 0 <= j < i ==> !is_space(#[trigger] s@[j]),
        decreases n - i,
    {
        if is_space_char(s.get_char(i)) {
            return false;
        }
        i += 1;
    }
    true
}

/// Composes the class set of a block: the base token first, then the caller's
/// classes in their order, then the token of each modifier whose condition
/// holds, in the order of the list; a token that is already present is skipped.
pub fn compose(base: &str, extra: &Option<Classes>, modifiers: &Vec<Modifier>) -> (r: Classes)
    ensures
        well_formed(base@, modifier_views(modifiers@)) ==> class_tokens(r) == composed(
            base@,
            extra_tokens(*extra),
            modifier_views(modifiers@),
        ),
{
    let ghost views = modifier_views(modifiers@);
    let mut classes = classes_from(base);
    proof {
        assert(append_new(class_tokens(classes), Seq::empty()) == class_tokens(classes));
        assert(views.take(0) =~= Seq::empty());
    }
    match extra {
        Some(more) => {
            classes_push(&mut classes, more);
        },
        None => {},
    }
    let mut i: usize = 0;
    while i < modifiers.len()
        invariant
            0 <= i <= modifiers.len(),
            views == modifier_views(modifiers@),
            well_formed(base@, views) ==> class_tokens(classes) == composed(
                base@,
                extra_tokens(*extra),
                views.take(i as int),
            ),
        decreases modifiers.len() - i,
    {
        proof {
            assert(views.take(i + 1).drop_last() =~= views.take(i as int));
            assert(views.take(i + 1).last() == views[i as int]);
            assert(views[i as int] == modifiers[i as int]@);
        }
        if modifiers[i].condition {
            let one = classes_from(modifiers[i].token);
            classes_push(&mut classes, &one);
        }
        i += 1;
    }
    proof {
        assert(views.take(i as int) =~= views);
    }
    classes
}

} // verus!
