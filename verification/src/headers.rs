//! The request headers of one source, ordered by name.
use std::sync::Arc;
use crate::text::chars_of;
use vstd::prelude::*;

verus! {

#[derive(Clone, Debug, PartialEq, Eq)]
pub struct SourceHeader {
    pub name: String,
    pub value: String,
}

/// Header names with their values. Copies share one allocation, and without
/// headers there is none.
#[derive(Debug, PartialEq, Eq)]
pub struct SourceHeaders {
    entries: Option<Arc<Vec<SourceHeader>>>,
}

impl View for SourceHeaders {
    type V = Seq<SourceHeader>;

    closed spec fn view(&self) -> Seq<SourceHeader> {
        match self.entries {
            Some(entries) => (*entries)@,
            None => Seq::empty(),
        }
    }
}

impl Clone for SourceHeaders {
    fn clone(&self) -> (copy: Self)
        ensures
            copy == *self,
    {
        proof {
            use_type_invariant(self);
        }
        SourceHeaders {
            entries: match &self.entries {
                Some(entries) => Some(entries.clone()),
                None => None,
            },
        }
    }
}

/// Whether `a` comes before `b` when both are compared from position `i` on.
/// Ordering by character is ordering by encoded byte.
pub open spec fn before_from(a: Seq<char>, b: Seq<char>, i: int) -> bool
    decreases a.len() - i,
{
    if i >= b.len() {
        false
    } else if i >= a.len() {
        true
    } else if a[i] != b[i] {
        a[i] < b[i]
    } else {
        before_from(a, b, i + 1)
    }
}

/// Whether name `a` comes before name `b`.
pub open spec fn before(a: Seq<char>, b: Seq<char>) -> bool {
    before_from(a, b, 0)
}

/// Names come in order, and none occurs twice.
pub open spec fn ordered_by_name(entries: Seq<SourceHeader>) -> bool {
    forall|i: int, j: int|
        0 <= i < j < entries.len() ==> #[trigger] before(entries[i].name@, entries[j].name@)
}

proof fn before_is_total(a: Seq<char>, b: Seq<char>, i: int)
    requires
        0 <= i <= a.len(),
        i <= b.len(),
        forall|k: int| 0 <= k < i ==> a[k] == b[k],
        !before_from(a, b, i),
        !before_from(b, a, i),
    ensures
        a == b,
    decreases a.len() - i,
{
    if i < a.len() && i < b.len() {
        before_is_total(a, b, i + 1);
    } else {
        assert(a =~= b);
    }
}

proof fn before_is_transitive(a: Seq<char>, b: Seq<char>, c: Seq<char>, i: int)
    requires
        0 <= i,
        before_from(a, b, i),
        before_from(b, c, i),
    ensures
        before_from(a, c, i),
    decreases a.len() - i,
{
    if i < a.len() && i < b.len() && i < c.len() && a[i] == b[i] && b[i] == c[i] {
        before_is_transitive(a, b, c, i + 1);
    }
}

proof fn before_is_irreflexive(a: Seq<char>, i: int)
    requires
        0 <= i,
    ensures
        !before_from(a, a, i),
    decreases a.len() - i,
{
    if i < a.len() {
        before_is_irreflexive(a, i + 1);
    }
}

fn comes_before(a: &String, b: &String) -> (first: bool)
    ensures
        first == before(a@, b@),
{
    let left = chars_of(a.as_str());
    let right = chars_of(b.as_str());
    let mut i: usize = 0;
    while i < left.len() && i < right.len()
        invariant
            i <= left.len(),
            i <= right.len(),
            left@ == a@,
            right@ == b@,
            before(a@, b@) == before_from(a@, b@, i as int),
        decreases left.len() - i,
    {
        if left[i] != right[i] {
            return left[i] < right[i];
        }
        i = i + 1;
    }
    i < right.len()
}

fn copy_entries(entries: &Vec<SourceHeader>) -> (copy: Vec<SourceHeader>)
    ensures
        copy@ == entries@,
{
    let mut copy: Vec<SourceHeader> = Vec::new();
    let mut i: usize = 0;
    while i < entries.len()
        invariant
            i <= entries.len(),
            copy@ == entries@.take(i as int),
        decreases entries.len() - i,
    {
        copy.push(
            SourceHeader { name: entries[i].name.clone(), value: entries[i].value.clone() },
        );
        proof {
            assert(copy@ =~= entries@.take(i + 1));
        }
        i = i + 1;
    }
    proof {
        assert(copy@ =~= entries@);
    }
    copy
}

impl Default for SourceHeaders {
    fn default() -> (headers: Self)
        ensures
            headers == SourceHeaders::none(),
            headers@ == Seq::<SourceHeader>::empty(),
    {
        SourceHeaders { entries: None }
    }
}

impl SourceHeaders {
    #[verifier::type_invariant]
    spec fn is_ordered(&self) -> bool {
        self.entries matches Some(entries) ==> (*entries)@.len() > 0 && ordered_by_name(
            (*entries)@,
        )
    }

    /// No headers at all.
    pub closed spec fn none() -> SourceHeaders {
        SourceHeaders { entries: None }
    }

    #[must_use]
    pub fn new() -> (headers: Self)
        ensures
            headers == SourceHeaders::none(),
            headers@ == Seq::<SourceHeader>::empty(),
    {
        SourceHeaders::default()
    }

    #[must_use]
    pub fn len(&self) -> (len: usize)
        ensures
            len == self@.len(),
    {
        match &self.entries {
            Some(entries) => entries.len(),
            None => 0,
        }
    }

    #[must_use]
    pub fn is_empty(&self) -> (empty: bool)
        ensures
            empty == (self@.len() == 0),
    {
        proof {
            use_type_invariant(self);
        }
        self.entries.is_none()
    }

    /// The header at a position in the order of names.
    #[must_use]
    pub fn at(&self, index: usize) -> (header: &SourceHeader)
        requires
            index < self@.len(),
        ensures
            *header == self@[index as int],
            ordered_by_name(self@),
    {
        proof {
            use_type_invariant(self);
        }
        match &self.entries {
            Some(entries) => &entries[index],
            None => vstd::pervasive::unreached(),
        }
    }

    /// Sets the value of `name`, replacing an earlier one.
    pub fn insert(&mut self, name: String, value: String)
        ensures
            ordered_by_name(final(self)@),
            with_value(old(self)@, name, value, final(self)@),
    {
        proof {
            use_type_invariant(&*self);
        }
        let mut entries = match &self.entries {
            Some(entries) => copy_entries(entries),
            None => Vec::new(),
        };
        let ghost all = entries@;
        let mut at: usize = 0;
        while at < entries.len() && comes_before(&entries[at].name, &name)
            invariant
                at <= entries.len(),
                entries@ == all,
                forall|i: int| 0 <= i < at ==> before((#[trigger] all[i]).name@, name@),
            decreases entries.len() - at,
        {
            at = at + 1;
        }
        let ghost added = SourceHeader { name, value };
        if at < entries.len() && entries[at].name == name {
            let kept = entries[at].name.clone();
            entries[at] = SourceHeader { name: kept, value };
            proof {
                assert(entries@ =~= all.update(
                    at as int,
                    SourceHeader { name: all[at as int].name, value: added.value },
                ));
                assert(ordered_by_name(entries@)) by {
                    assert forall|i: int, j: int| 0 <= i < j < entries@.len() implies #[trigger] before(
                        entries@[i].name@,
                        entries@[j].name@,
                    ) by {
                        assert(before(all[i].name@, all[j].name@));
                    }
                }
            }
        } else {
            entries.insert(at, SourceHeader { name, value });
            proof {
                assert(entries@ =~= all.insert(at as int, added));
                assert forall|j: int| at <= j < all.len() implies #[trigger] before(
                    added.name@,
                    all[j].name@,
                ) by {
                    let first = all[at as int].name@;
                    if !before(added.name@, first) {
                        before_is_total(added.name@, first, 0);
                    }
                    if j > at {
                        assert(before(all[at as int].name@, all[j].name@));
                        before_is_transitive(added.name@, first, all[j].name@, 0);
                    }
                }
                assert forall|i: int, j: int| 0 <= i < j < entries@.len() implies #[trigger] before(
                    entries@[i].name@,
                    entries@[j].name@,
                ) by {
                    let a = if i < at {
                        i
                    } else {
                        i - 1
                    };
                    let b = if j < at {
                        j
                    } else {
                        j - 1
                    };
                    if i != at && j != at {
                        assert(before(all[a].name@, all[b].name@));
                    } else if i == at {
                        assert(before(added.name@, all[b].name@));
                    } else {
                        assert(before(all[a].name@, added.name@));
                    }
                }
                assert forall|i: int| 0 <= i < all.len() implies (#[trigger] all[i]).name@
                    != added.name@ by {
                    before_is_irreflexive(added.name@, 0);
                    if i >= at {
                        assert(before(added.name@, all[i].name@));
                    }
                }
            }
        }
        proof {
            assert(old(self)@ == all);
            assert(set_at(all, added.name, added.value, entries@, at as int));
        }
        self.entries = Some(Arc::new(entries));
    }
}

/// `after` are the headers `headers` with the value of `name` set.
pub open spec fn with_value(
    headers: Seq<SourceHeader>,
    name: String,
    value: String,
    after: Seq<SourceHeader>,
) -> bool {
    exists|at: int| set_at(headers, name, value, after, at)
}

/// The header at `at` was changed, or one was put there, to say `value` under `name`.
pub open spec fn set_at(
    headers: Seq<SourceHeader>,
    name: String,
    value: String,
    after: Seq<SourceHeader>,
    at: int,
) -> bool {
    &&& 0 <= at <= headers.len()
    &&& if at < headers.len() && headers[at].name@ == name@ {
        after == headers.update(at, SourceHeader { name: headers[at].name, value })
    } else {
        &&& after == headers.insert(at, SourceHeader { name, value })
        &&& forall|i: int| 0 <= i < headers.len() ==> (#[trigger] headers[i]).name@ != name@
    }
}

/// Whether some header says `value` under `name`.
pub open spec fn says(headers: Seq<SourceHeader>, name: Seq<char>, value: Seq<char>) -> bool {
    exists|i: int|
        0 <= i < headers.len() && (#[trigger] headers[i]).name@ == name && headers[i].value@
            == value
}

/// A header that is set says the value it was set to, whatever it said before, and
/// every other header says what it did.
pub proof fn set_headers_say_their_value(
    headers: Seq<SourceHeader>,
    name: String,
    value: String,
    after: Seq<SourceHeader>,
    other: Seq<char>,
    said: Seq<char>,
)
    requires
        ordered_by_name(headers),
        ordered_by_name(after),
        with_value(headers, name, value, after),
    ensures
        says(after, name@, value@),
        says(after, name@, said) ==> said == value@,
        other != name@ ==> (says(after, other, said) <==> says(headers, other, said)),
{
    let at = choose|at: int| set_at(headers, name, value, after, at);
    assert(set_at(headers, name, value, after, at));
    assert(after[at].name@ == name@ && after[at].value@ == value@);
    if says(after, name@, said) {
        let i = choose|i: int|
            0 <= i < after.len() && (#[trigger] after[i]).name@ == name@ && after[i].value@ == said;
        before_is_irreflexive(name@, 0);
        if i < at {
            assert(before(after[i].name@, after[at].name@));
        } else if i > at {
            assert(before(after[at].name@, after[i].name@));
        }
    }
    let replaced = at < headers.len() && headers[at].name@ == name@;
    if other != name@ {
        if says(after, other, said) {
            let i = choose|i: int|
                0 <= i < after.len() && (#[trigger] after[i]).name@ == other && after[i].value@
                    == said;
            let j = if replaced || i < at {
                i
            } else {
                i - 1
            };
            assert(headers[j] == after[i]);
        }
        if says(headers, other, said) {
            let i = choose|i: int|
                0 <= i < headers.len() && (#[trigger] headers[i]).name@ == other
                    && headers[i].value@ == said;
            let j = if replaced || i < at {
                i
            } else {
                i + 1
            };
            assert(after[j] == headers[i]);
        }
    }
}

/// The absence of headers holds none.
pub proof fn none_is_empty()
    ensures
        SourceHeaders::none()@ == Seq::<SourceHeader>::empty(),
{
}

/// Names are ordered as in a dictionary: the first character in which they differ
/// decides, and a name comes before any longer one that begins with it.
pub proof fn names_are_ordered_as_in_a_dictionary(a: Seq<char>, b: Seq<char>, i: int)
    requires
        0 <= i <= a.len(),
        i < b.len(),
        forall|k: int| 0 <= k < i ==> a[k] == b[k],
        i < a.len() ==> a[i] < b[i],
    ensures
        before(a, b),
        !before(b, a),
{
    agreeing_starts_are_passed(a, b, i);
    agreeing_starts_are_passed(b, a, i);
}

proof fn agreeing_starts_are_passed(a: Seq<char>, b: Seq<char>, i: int)
    requires
        0 <= i <= a.len(),
        i <= b.len(),
        forall|k: int| 0 <= k < i ==> a[k] == b[k],
    ensures
        before_from(a, b, 0) == before_from(a, b, i),
    decreases i,
{
    if i > 0 {
        agreeing_starts_are_passed(a, b, i - 1);
    }
}

/// Of two names that differ exactly one comes first, none comes before itself, and
/// the order carries over.
pub proof fn names_are_in_one_order(a: Seq<char>, b: Seq<char>, c: Seq<char>)
    ensures
        !before(a, a),
        a != b ==> before(a, b) || before(b, a),
        before(a, b) ==> !before(b, a),
        before(a, b) && before(b, c) ==> before(a, c),
{
    before_is_irreflexive(a, 0);
    if !before(a, b) && !before(b, a) {
        before_is_total(a, b, 0);
    }
    if before(a, b) && before(b, a) {
        before_is_transitive(a, b, a, 0);
    }
    if before(a, b) && before(b, c) {
        before_is_transitive(a, b, c, 0);
    }
}

/// No headers at all are an empty list.
pub proof fn no_headers_are_none()
    ensures
        SourceHeaders::none()@.len() == 0,
{
}

} // verus!
