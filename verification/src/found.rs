//! Classic devices that a search found.

use vstd::prelude::*;
use vstd::string::*;

use crate::address::{address_text, fmt_bt_addr};
use crate::labels::{class_name, cod_label};
use crate::order::{
    lemma_stable_order_unique, lists_each_once, stable_order, stably_ordered, Ranked,
};

verus! {

/// A device that the search found.
pub struct ClassicFound {
    pub address: u64,
    pub name: String,
    pub class_of_device: u32,
    pub connected: bool,
    pub paired: bool,
    pub remembered: bool,
}

/// A device that the search found, as values.
pub struct ClassicFoundView {
    pub address: u64,
    pub name: Seq<char>,
    pub class_of_device: u32,
    pub connected: bool,
    pub paired: bool,
    pub remembered: bool,
}

impl View for ClassicFound {
    type V = ClassicFoundView;

    open spec fn view(&self) -> ClassicFoundView {
        ClassicFoundView {
            address: self.address,
            name: self.name@,
            class_of_device: self.class_of_device,
            connected: self.connected,
            paired: self.paired,
            remembered: self.remembered,
        }
    }
}

/// How far the search has come.
#[derive(Copy, Clone, Debug, PartialEq, Eq, Structural)]
pub enum ClassicScanState {
    Idle,
    Running,
    Finished(u32),
}

/// What found devices are ordered by: connected ones first, then those that are not paired, then
/// those with a name.
#[derive(Copy, Clone)]
pub struct FoundRank {
    pub connected: bool,
    pub paired: bool,
    pub named: bool,
}

impl Ranked for FoundRank {
    open spec fn not_after(&self, other: &Self) -> bool {
        if self.connected != other.connected {
            self.connected
        } else if self.paired != other.paired {
            !self.paired
        } else {
            self.named || !other.named
        }
    }

    proof fn total(a: &Self, b: &Self) {
    }

    proof fn transitive(a: &Self, b: &Self, c: &Self) {
    }

    fn may_precede(&self, other: &Self) -> bool {
        if self.connected != other.connected {
            self.connected
        } else if self.paired != other.paired {
            !self.paired
        } else {
            self.named || !other.named
        }
    }
}

impl ClassicFoundView {
    /// What this device is ordered by.
    pub open spec fn rank(self) -> FoundRank {
        FoundRank { connected: self.connected, paired: self.paired, named: self.name.len() > 0 }
    }
}

/// A row of the list of found devices.
pub struct FoundRow {
    pub address_text: String,
    pub name: String,
    pub class: &'static str,
    pub state: &'static str,
    pub flags: String,
}

/// A row of the list of found devices, as values.
pub struct FoundRowView {
    pub address_text: Seq<char>,
    pub name: Seq<char>,
    pub class: Seq<char>,
    pub state: Seq<char>,
    pub flags: Seq<char>,
}

impl View for FoundRow {
    type V = FoundRowView;

    open spec fn view(&self) -> FoundRowView {
        FoundRowView {
            address_text: self.address_text@,
            name: self.name@,
            class: self.class@,
            state: self.state@,
            flags: self.flags@,
        }
    }
}

/// Rows as values.
pub open spec fn found_row_views(rows: Seq<FoundRow>) -> Seq<FoundRowView> {
    rows.map_values(|r: FoundRow| r@)
}

/// Two lists of words, of which either may be empty, with a comma between them.
pub open spec fn joined(a: Seq<char>, b: Seq<char>) -> Seq<char> {
    if a.len() == 0 {
        b
    } else if b.len() == 0 {
        a
    } else {
        a + ","@ + b
    }
}

/// A word that is there if a condition holds.
pub open spec fn word_if(holds: bool, word: Seq<char>) -> Seq<char> {
    if holds {
        word
    } else {
        Seq::empty()
    }
}

/// The flags of a found device, with commas between them.
pub open spec fn flags_text(c: ClassicFoundView) -> Seq<char> {
    joined(
        joined(word_if(c.paired, "paired"@), word_if(c.remembered, "remembered"@)),
        word_if(c.connected, "connected"@),
    )
}

/// How a found device is shown.
pub open spec fn found_row(c: ClassicFoundView) -> FoundRowView {
    FoundRowView {
        address_text: address_text(c.address),
        name: if c.name.len() == 0 {
            "(no name)"@
        } else {
            c.name
        },
        class: class_name(c.class_of_device),
        state: if c.connected {
            "接続中"@
        } else if c.paired {
            "切断 (ペア済)"@
        } else {
            "未ペア"@
        },
        flags: flags_text(c),
    }
}

/// Appends a word to a list of words.
fn append_word(s: &mut String, holds: bool, word: &'static str)
    requires
        word@.len() > 0,
    ensures
        final(s)@ == joined(old(s)@, word_if(holds, word@)),
{
    if holds {
        if !s.as_str().is_empty() {
            s.append(",");
        }
        s.append(word);
        assert(old(s)@.len() == 0 ==> s@ =~= word@);
    }
}

impl ClassicFound {
    /// Shows this device as a row.
    fn row(&self) -> (r: FoundRow)
        ensures
            r@ == found_row(self@),
    {
        proof {
            reveal_strlit("paired");
            reveal_strlit("remembered");
            reveal_strlit("connected");
        }
        let mut flags = String::new();
        append_word(&mut flags, self.paired, "paired");
        assert(flags@ =~= word_if(self.paired, "paired"@));
        append_word(&mut flags, self.remembered, "remembered");
        append_word(&mut flags, self.connected, "connected");
        FoundRow {
            address_text: fmt_bt_addr(self.address),
            name: if self.name.as_str().is_empty() {
                "(no name)".to_owned()
            } else {
                self.name.clone()
            },
            class: cod_label(self.class_of_device),
            state: if self.connected {
                "接続中"
            } else if self.paired {
                "切断 (ペア済)"
            } else {
                "未ペア"
            },
            flags,
        }
    }
}

/// Whether `rows` is the list of found devices: the rows are in order, and devices that are level
/// stay in the sequence in which they were found.
pub open spec fn is_found_list(found: Seq<ClassicFoundView>, rows: Seq<FoundRowView>) -> bool {
    exists|order: Seq<usize>|
        {
            &&& #[trigger] lists_each_once(order, found.len())
            &&& stably_ordered(found.map_values(|c: ClassicFoundView| c.rank()), order)
            &&& rows == order.map_values(|k: usize| found_row(found[k as int]))
        }
}

/// Found devices as values.
pub open spec fn found_views(found: Seq<ClassicFound>) -> Seq<ClassicFoundView> {
    found.map_values(|c: ClassicFound| c@)
}

/// The list of found devices.
pub fn found_rows(found: &Vec<ClassicFound>) -> (rows: Vec<FoundRow>)
    ensures
        is_found_list(found_views(found@), found_row_views(rows@)),
{
    let ghost views = found_views(found@);
    let mut ranks: Vec<FoundRank> = Vec::new();
    let mut i: usize = 0;
    while i < found.len()
        invariant
            i <= found@.len(),
            ranks@.len() == i,
            forall|k: int| 0 <= k < i ==> #[trigger] ranks@[k] == found@[k]@.rank(),
        decreases found@.len() - i,
    {
        let c = &found[i];
        ranks.push(
            FoundRank {
                connected: c.connected,
                paired: c.paired,
                named: !c.name.as_str().is_empty(),
            },
        );
        i += 1;
    }
    let order = stable_order(&ranks);
    let mut rows: Vec<FoundRow> = Vec::new();
    let mut n: usize = 0;
    while n < order.len()
        invariant
            n <= order@.len(),
            lists_each_once(order@, found@.len()),
            rows@.len() == n,
            forall|k: int|
                0 <= k < n ==> (#[trigger] rows@[k])@ == found_row(found@[order@[k] as int]@),
        decreases order@.len() - n,
    {
        rows.push(found[order[n]].row());
        n += 1;
    }
    proof {
        assert(ranks@ =~= views.map_values(|c: ClassicFoundView| c.rank()));
        assert(found_row_views(rows@) =~= order@.map_values(
            |k: usize| found_row(views[k as int]),
        ));
        assert(lists_each_once(order@, views.len()));
    }
    rows
}

/// There is only one list of found devices.
pub proof fn lemma_found_list_unique(
    found: Seq<ClassicFoundView>,
    a: Seq<FoundRowView>,
    b: Seq<FoundRowView>,
)
    requires
        is_found_list(found, a),
        is_found_list(found, b),
    ensures
        a == b,
{
    let ranks = found.map_values(|c: ClassicFoundView| c.rank());
    let x = choose|order: Seq<usize>|
        {
            &&& #[trigger] lists_each_once(order, found.len())
            &&& stably_ordered(ranks, order)
            &&& a == order.map_values(|k: usize| found_row(found[k as int]))
        };
    let y = choose|order: Seq<usize>|
        {
            &&& #[trigger] lists_each_once(order, found.len())
            &&& stably_ordered(ranks, order)
            &&& b == order.map_values(|k: usize| found_row(found[k as int]))
        };
    lemma_stable_order_unique(ranks, x, y);
}

} // verus!
