//! Inserting elements into a group so that each element keeps an identifier of its own.

use vstd::prelude::*;

use crate::models::ident::{Name, TypeIdent, TypeIdentView};
use crate::models::meta::{ElementMeta, ElementsMeta};
use crate::text::{decimal_digits, push_decimal};

verus! {

/// `true` if one of the elements `s` has the identifier `k`.
pub open spec fn has_ident(s: Seq<ElementMeta>, k: TypeIdentView) -> bool {
    exists|i: int| 0 <= i < s.len() && (#[trigger] s[i]).ident@ == k
}

/// Position of the first element of `s` with the identifier `k`, from `start` on (the length
/// if there is none).
pub open spec fn first_with_ident(s: Seq<ElementMeta>, k: TypeIdentView, start: int) -> int
    decreases s.len() - start,
{
    if start < 0 || start >= s.len() {
        s.len() as int
    } else if s[start].ident@ == k {
        start
    } else {
        first_with_ident(s, k, start + 1)
    }
}

/// Two to the power of `e`.
pub open spec fn doubled(e: nat) -> nat
    decreases e,
{
    if e == 0 {
        1
    } else {
        2 * doubled((e - 1) as nat)
    }
}

/// The identifier `k` with the suffix `_n` appended to its name.
pub open spec fn suffixed(k: TypeIdentView, n: nat) -> TypeIdentView {
    TypeIdentView { name: k.name + "_"@ + decimal_digits(n), ..k }
}

/// The largest exponent tried when looking for a free suffix: the suffix is counted in a
/// 32-bit signed integer, which overflows after this.
pub open spec fn max_suffix_exponent() -> nat {
    30
}

/// The first exponent `e` from `start` on whose suffix `_2^e` makes `k` an identifier that
/// none of the elements `s` has (one more than the largest exponent tried if there is none).
pub open spec fn first_free_exponent(s: Seq<ElementMeta>, k: TypeIdentView, start: nat) -> nat
    decreases max_suffix_exponent() + 1 - start,
{
    if start > max_suffix_exponent() {
        max_suffix_exponent() + 1
    } else if !has_ident(s, suffixed(k, doubled(start))) {
        start
    } else {
        first_free_exponent(s, k, start + 1)
    }
}

/// `true` if the element `b` is the element `a` with the identifier `k`.
pub open spec fn renamed_element(a: ElementMeta, b: ElementMeta, k: TypeIdentView) -> bool {
    &&& b.ident@ == k
    &&& b.variant == a.variant
    &&& b.form == a.form
    &&& b.nillable == a.nillable
    &&& b.min_occurs == a.min_occurs
    &&& b.max_occurs == a.max_occurs
    &&& b.display_name == a.display_name
    &&& b.documentation == a.documentation
}

/// `true` if `n` is the first element `o` with the identifier `k` after a second element with
/// that identifier was added: it gets the display name `<name>_1` unless it has one.
pub open spec fn first_renamed(o: ElementMeta, n: ElementMeta, k: TypeIdentView) -> bool {
    &&& n == (ElementMeta { display_name: n.display_name, ..o })
    &&& o.display_name is Some ==> n.display_name == o.display_name
    &&& o.display_name is None ==> (n.display_name matches Some(d) && d@ == k.name + "_1"@)
}

/// `true` if a free identifier can be found for `element` among the elements `s`: its own
/// identifier is free, or one of the suffixes tried is.
pub open spec fn can_insert_checked(s: Seq<ElementMeta>, element: ElementMeta) -> bool {
    !has_ident(s, element.ident@) || first_free_exponent(s, element.ident@, 1)
        <= max_suffix_exponent()
}

/// The identifiers of the elements `s` are pairwise different.
pub open spec fn unique_idents(s: Seq<ElementMeta>) -> bool {
    forall|i: int, j: int|
        0 <= i < s.len() && 0 <= j < s.len() && i != j ==> (#[trigger] s[i]).ident@ != (
        #[trigger] s[j]).ident@
}

proof fn lemma_doubled_grows(e: nat)
    ensures
        doubled(e) <= doubled(e + 1),
        doubled(e) >= 1,
    decreases e,
{
    if e > 0 {
        lemma_doubled_grows((e - 1) as nat);
    }
}

proof fn lemma_doubled_bound(e: nat)
    requires
        e <= max_suffix_exponent(),
    ensures
        doubled(e) <= 1073741824,
    decreases max_suffix_exponent() - e,
{
    if e < max_suffix_exponent() {
        lemma_doubled_grows(e);
        lemma_doubled_bound(e + 1);
    } else {
        reveal_with_fuel(doubled, 31);
    }
}

proof fn lemma_first_with_ident_bounds(s: Seq<ElementMeta>, k: TypeIdentView, start: int)
    requires
        0 <= start,
    ensures
        0 <= first_with_ident(s, k, start) <= s.len(),
        first_with_ident(s, k, start) < s.len() ==> s[first_with_ident(s, k, start)].ident@ == k,
        first_with_ident(s, k, start) == s.len() ==> forall|i: int|
            start <= i < s.len() ==> (#[trigger] s[i]).ident@ != k,
    decreases s.len() - start,
{
    if start < s.len() && s[start].ident@ != k {
        lemma_first_with_ident_bounds(s, k, start + 1);
    }
}

proof fn lemma_first_free_bounds(s: Seq<ElementMeta>, k: TypeIdentView, start: nat)
    ensures
        first_free_exponent(s, k, start) >= start || start > max_suffix_exponent(),
        first_free_exponent(s, k, start) <= max_suffix_exponent() ==> !has_ident(
            s,
            suffixed(k, doubled(first_free_exponent(s, k, start))),
        ),
        forall|e: nat|
            start <= e < first_free_exponent(s, k, start) ==> has_ident(
                s,
                #[trigger] suffixed(k, doubled(e)),
            ),
    decreases max_suffix_exponent() + 1 - start,
{
    if start <= max_suffix_exponent() && has_ident(s, suffixed(k, doubled(start))) {
        lemma_first_free_bounds(s, k, start + 1);
    }
}

/// Returns `true` if one of the elements `v` has the identifier `ident`.
fn contains_ident(v: &Vec<ElementMeta>, ident: &TypeIdent) -> (r: bool)
    ensures
        r == has_ident(v@, ident@),
{
    let mut i: usize = 0;
    while i < v.len()
        invariant
            i <= v@.len(),
            forall|j: int| 0 <= j < i ==> (#[trigger] v@[j]).ident@ != ident@,
        decreases v@.len() - i,
    {
        if v[i].ident.is_same(ident) {
            return true;
        }
        i = i + 1;
    }
    false
}

/// Returns the position of the first of the elements `v` with the identifier `ident`.
fn position_of_ident(v: &Vec<ElementMeta>, ident: &TypeIdent) -> (r: usize)
    ensures
        r == first_with_ident(v@, ident@, 0),
{
    let mut i: usize = 0;
    while i < v.len()
        invariant
            i <= v@.len(),
            first_with_ident(v@, ident@, 0) == first_with_ident(v@, ident@, i as int),
        decreases v@.len() - i,
    {
        if v[i].ident.is_same(ident) {
            return i;
        }
        i = i + 1;
    }
    i
}

/// Returns `name` followed by `_` and the decimal representation of `n`.
fn suffixed_name(name: &Name, n: u64) -> (r: Name)
    ensures
        r@ == name@ + "_"@ + decimal_digits(n as nat),
{
    let mut s = name.0.clone();
    s.append("_");
    push_decimal(&mut s, n);
    Name(s)
}

impl ElementsMeta {
    /// Inserts `element` into the group and returns its position.
    ///
    /// If an element with the same identifier already exists, the first such element is given
    /// the display name `<name>_1` (unless it has one), and the new element is renamed to
    /// `<name>_2`, `<name>_4`, `<name>_8`, ... whichever is the first that no element has.
    pub fn insert_checked(&mut self, element: ElementMeta) -> (r: usize)
        requires
            can_insert_checked(old(self).0@, element),
        ensures
            r == old(self).0@.len(),
            final(self).0@.len() == old(self).0@.len() + 1,
            forall|j: int|
                0 <= j < r ==> (#[trigger] final(self).0@[j]).ident@ != final(self).0@[r as int].ident@,
            unique_idents(old(self).0@) ==> unique_idents(final(self).0@),
            !has_ident(old(self).0@, element.ident@) ==> final(self).0@ == old(self).0@.push(element),
            has_ident(old(self).0@, element.ident@) ==> {
                let k = element.ident@;
                let i = first_with_ident(old(self).0@, k, 0);
                let o = old(self).0@[i];
                &&& forall|j: int|
                    0 <= j < old(self).0@.len() && j != i ==> #[trigger] final(self).0@[j]
                        == old(self).0@[j]
                &&& first_renamed(o, final(self).0@[i], k)
                &&& renamed_element(
                    element,
                    final(self).0@[r as int],
                    suffixed(k, doubled(first_free_exponent(old(self).0@, k, 1))),
                )
            },
    {
        let ghost s = self.0@;
        let ghost k = element.ident@;
        if !contains_ident(&self.0, &element.ident) {
            self.0.push(element);
            return self.0.len() - 1;
        }
        let index = position_of_ident(&self.0, &element.ident);
        proof {
            lemma_first_with_ident_bounds(s, k, 0);
            if index == s.len() {
                assert(false);
            }
        }
        if self.0[index].display_name.is_none() {
            let name = suffixed_name(&element.ident.name, 1);
            let mut first = self.0.remove(index);
            first.display_name = Some(name.0);
            self.0.insert(index, first);
        }
        let ghost s1 = self.0@;
        assert forall|j: int| 0 <= j < s.len() implies #[trigger] s1[j].ident == s[j].ident by {
            if j != index {
                assert(s1[j] == s[j]);
            }
        }
        assert forall|e: TypeIdentView| has_ident(s1, e) == has_ident(s, e) by {
            if has_ident(s, e) {
                let j = choose|j: int| 0 <= j < s.len() && (#[trigger] s[j]).ident@ == e;
                assert(s1[j].ident@ == e);
            }
            if has_ident(s1, e) {
                let j = choose|j: int| 0 <= j < s1.len() && (#[trigger] s1[j]).ident@ == e;
                assert(s[j].ident@ == e);
            }
        }
        proof {
            lemma_first_free_bounds(s, k, 1);
            assert(doubled(0) == 1);
            assert(doubled(1) == 2);
            reveal_strlit("_");
            reveal_strlit("_1");
            assert(decimal_digits(1) =~= seq!['1']);
            assert(k.name + "_"@ + decimal_digits(1) =~= k.name + "_1"@);
            assert(first_renamed(s[index as int], s1[index as int], k));
        }
        let mut exponent: u64 = 1;
        let mut next: u64 = 2;
        loop
            invariant
                self.0@ == s1,
                s == old(self).0@,
                has_ident(s, k),
                s1.len() == s.len(),
                index == first_with_ident(s, k, 0),
                index < s.len(),
                forall|j: int| 0 <= j < s.len() && j != index ==> #[trigger] s1[j] == s[j],
                first_renamed(s[index as int], s1[index as int], k),
                forall|e: TypeIdentView| has_ident(s1, e) == has_ident(s, e),
                1 <= exponent <= first_free_exponent(s, k, 1),
                first_free_exponent(s, k, 1) <= max_suffix_exponent(),
                next == doubled(exponent as nat),
                element.ident@ == k,
                forall|e: nat|
                    1 <= e < first_free_exponent(s, k, 1) ==> has_ident(
                        s,
                        #[trigger] suffixed(k, doubled(e)),
                    ),
                !has_ident(s, suffixed(k, doubled(first_free_exponent(s, k, 1)))),
            decreases max_suffix_exponent() - exponent,
        {
            proof {
                lemma_doubled_bound(exponent as nat);
            }
            let name = suffixed_name(&element.ident.name, next);
            let candidate = TypeIdent {
                ns: element.ident.ns,
                schema: element.ident.schema,
                name,
                type_: element.ident.type_,
            };
            assert(candidate@ == suffixed(k, doubled(exponent as nat)));
            if !contains_ident(&self.0, &candidate) {
                let mut element = element;
                element.ident = candidate;
                self.0.push(element);
                proof {
                    assert(exponent == first_free_exponent(s, k, 1));
                    assert forall|j: int| 0 <= j < s.len() implies #[trigger] self.0@[j].ident
                        == s[j].ident by {
                        if j != index {
                            assert(s1[j] == s[j]);
                        }
                    }
                }
                return self.0.len() - 1;
            }
            proof {
                lemma_doubled_grows(exponent as nat);
            }
            exponent = exponent + 1;
            next = next + next;
        }
    }
}

} // verus!
