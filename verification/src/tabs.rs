//! Tabs: unique window labels, and the choice of the tab that an action
//! applies to.

use vstd::prelude::*;
use crate::text::{decimal, decimal_string, digits_value, lemma_decimal_injective, lemma_decimal_is_numeral};

verus! {

/// The window label of tab number `n`: `tab-` followed by `n` in decimal.
pub open spec fn spec_tab_label(n: nat) -> Seq<char> {
    "tab-"@ + decimal(n)
}

/// The window label of tab number `n`, e.g. `tab-1`.
pub fn tab_label(n: u32) -> (r: String)
    ensures
        r@ == spec_tab_label(n as nat),
{
    let mut s = String::from_str("tab-");
    let d = decimal_string(n);
    s.append(d.as_str());
    s
}

/// Different tab numbers give different window labels.
pub proof fn lemma_tab_labels_distinct(n: nat, m: nat)
    requires
        n != m,
    ensures
        spec_tab_label(n) != spec_tab_label(m),
{
    let p = "tab-"@;
    if spec_tab_label(n) == spec_tab_label(m) {
        assert(spec_tab_label(n).subrange(p.len() as int, spec_tab_label(n).len() as int)
            =~= decimal(n));
        assert(spec_tab_label(m).subrange(p.len() as int, spec_tab_label(m).len() as int)
            =~= decimal(m));
        lemma_decimal_injective(n, m);
    }
}

/// The label of tab `n` is `tab-` followed by the usual decimal numeral of
/// `n`: digits only, no leading zero unless `n` is 0, denoting `n`.
pub proof fn lemma_tab_label_is_numbered(n: nat)
    ensures
        spec_tab_label(n).len() > 4,
        spec_tab_label(n).subrange(0, 4) == "tab-"@,
        digits_value(spec_tab_label(n).subrange(4, spec_tab_label(n).len() as int)) == n,
        forall|i: int|
            4 <= i < spec_tab_label(n).len() ==> '0' <= #[trigger] spec_tab_label(n)[i] <= '9',
        spec_tab_label(n)[4] == '0' ==> n == 0,
{
    reveal_strlit("tab-");
    lemma_decimal_is_numeral(n);
    let l = spec_tab_label(n);
    assert(l.subrange(0, 4) =~= "tab-"@);
    assert(l.subrange(4, l.len() as int) =~= decimal(n));
    assert forall|i: int| 4 <= i < l.len() implies '0' <= #[trigger] l[i] <= '9' by {
        assert(l[i] == decimal(n)[i - 4]);
    }
    assert(l[4] == decimal(n)[0]);
}

/// The number after `n` on a 32-bit counter that wraps around.
pub open spec fn next_count(n: u32) -> u32 {
    if n == u32::MAX {
        0
    } else {
        (n + 1) as u32
    }
}

/// Monotonic counter used to give each tab-window a unique label.
#[derive(Debug)]
pub struct TabCounter {
    next: u32,
}

impl TabCounter {
    /// The number the next label will carry.
    pub closed spec fn count(self) -> u32 {
        self.next
    }

    /// A counter whose first label is `tab-1`.
    pub fn new() -> (r: TabCounter)
        ensures
            r.count() == 1,
    {
        TabCounter { next: 1 }
    }

    /// Next unique window label, e.g. `tab-1`, `tab-2`, ...
    pub fn next_label(&mut self) -> (r: String)
        ensures
            r@ == spec_tab_label(old(self).count() as nat),
            final(self).count() == next_count(old(self).count()),
    {
        let n = self.next;
        self.next = n.wrapping_add(1);
        tab_label(n)
    }
}

/// The counter after `i` labels were taken from a counter at `c`.
pub open spec fn count_after(c: u32, i: nat) -> u32
    decreases i,
{
    if i == 0 {
        c
    } else {
        next_count(count_after(c, (i - 1) as nat))
    }
}

proof fn lemma_count_after(c: u32, i: nat)
    requires
        c + i <= 0x1_0000_0000,
    ensures
        count_after(c, i) == (c + i) % 0x1_0000_0000,
    decreases i,
{
    if i > 0 {
        lemma_count_after(c, (i - 1) as nat);
    }
}

/// Any run of `k` calls of `next_label` from a counter at `n0`, with
/// `n0 + k <= 2^32`: `counts` are the counter values before each call (and
/// after the last), `labels` what the calls returned, each related to the
/// next as `next_label` ensures. The labels are `tab-n0`, ...,
/// `tab-(n0 + k - 1)` in that order, pairwise distinct, and the counter ends
/// at `n0 + k` (which wraps to 0 at `2^32`).
pub proof fn lemma_successive_labels_distinct(
    n0: u32,
    k: nat,
    counts: Seq<u32>,
    labels: Seq<Seq<char>>,
)
    requires
        n0 + k <= 0x1_0000_0000,
        counts.len() == k + 1,
        labels.len() == k,
        counts[0] == n0,
        forall|i: int|
            0 <= i < k ==> #[trigger] labels[i] == spec_tab_label(counts[i] as nat) && counts[i
                + 1] == next_count(counts[i]),
    ensures
        forall|i: int| 0 <= i < k ==> #[trigger] labels[i] == spec_tab_label((n0 + i) as nat),
        forall|i: int, j: int|
            0 <= i < k && 0 <= j < k && i != j ==> #[trigger] labels[i] != #[trigger] labels[j],
        counts[k as int] == (n0 + k) % 0x1_0000_0000,
{
    assert forall|t: int| 0 <= t < k implies counts[t + 1] == next_count(#[trigger] counts[t]) by {
        assert(labels[t] == spec_tab_label(counts[t] as nat));
    }
    assert forall|i: int| 0 <= i <= k implies #[trigger] counts[i] == count_after(n0, i as nat) by {
        lemma_counts_follow(n0, k, counts, i);
    }
    lemma_count_after(n0, k);
    assert forall|i: int| 0 <= i < k implies #[trigger] labels[i] == spec_tab_label(
        (n0 + i) as nat,
    ) by {
        assert(counts[i] == count_after(n0, i as nat));
        lemma_count_after(n0, i as nat);
    }
    assert forall|i: int, j: int|
        0 <= i < k && 0 <= j < k && i != j implies #[trigger] labels[i] != #[trigger] labels[j] by {
        assert(labels[i] == spec_tab_label((n0 + i) as nat));
        assert(labels[j] == spec_tab_label((n0 + j) as nat));
        lemma_tab_labels_distinct((n0 + i) as nat, (n0 + j) as nat);
    }
}

proof fn lemma_counts_follow(n0: u32, k: nat, counts: Seq<u32>, i: int)
    requires
        counts.len() == k + 1,
        counts[0] == n0,
        forall|t: int| 0 <= t < k ==> counts[t + 1] == next_count(#[trigger] counts[t]),
        0 <= i <= k,
    ensures
        counts[i] == count_after(n0, i as nat),
    decreases i,
{
    if i > 0 {
        lemma_counts_follow(n0, k, counts, i - 1);
        assert(counts[(i - 1) + 1] == next_count(counts[i - 1]));
    }
}

/// Index of the first window that has focus, in the order the windows are listed.
pub fn first_focused(focused: &Vec<bool>) -> (r: Option<usize>)
    ensures
        match r {
            Some(i) => i < focused@.len() && focused@[i as int] && forall|j: int|
                0 <= j < i ==> !focused@[j],
            None => forall|j: int| 0 <= j < focused@.len() ==> !focused@[j],
        },
{
    let mut i: usize = 0;
    while i < focused.len()
        invariant
            i <= focused@.len(),
            forall|j: int| 0 <= j < i ==> !focused@[j],
        decreases focused@.len() - i,
    {
        if focused[i] {
            return Some(i);
        }
        i = i + 1;
    }
    None
}

/// The tab a newly created tab should be grouped with, or that is brought
/// forward: the focused one if any, otherwise the first listed. `None` means
/// there is no tab yet.
pub fn focused_or_any_window(focused: &Vec<bool>) -> (r: Option<usize>)
    ensures
        match r {
            Some(i) => i < focused@.len() && ((focused@[i as int] && forall|j: int|
                0 <= j < i ==> !focused@[j]) || (i == 0 && forall|j: int|
                0 <= j < focused@.len() ==> !focused@[j])),
            None => focused@.len() == 0,
        },
{
    match first_focused(focused) {
        Some(i) => Some(i),
        None => if focused.len() > 0 {
            Some(0)
        } else {
            None
        },
    }
}

/// What toggling the web inspector of a tab does.
#[derive(Clone, Copy, Debug, PartialEq, Eq, Structural)]
pub enum DevtoolsAction {
    Open,
    Close,
}

/// Toggle the web inspector: close it where it is open, open it otherwise.
pub fn toggle_devtools(is_open: bool) -> (r: DevtoolsAction)
    ensures
        r == (if is_open {
            DevtoolsAction::Close
        } else {
            DevtoolsAction::Open
        }),
{
    if is_open {
        DevtoolsAction::Close
    } else {
        DevtoolsAction::Open
    }
}

} // verus!
