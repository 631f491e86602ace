//! A horizontal bar of tabs, each reachable by a key.
use vstd::prelude::*;
use vstd::string::*;
use crate::style::{Color, painted, push_painted};
use crate::text::push_char;

verus! {

/// Relies on `char::to_ascii_lowercase`: ASCII capitals map to the lower-case
/// letter 32 code points above; every other character stays as it is.
#[verifier::external_body]
fn ascii_lower(c: char) -> (r: char)
    ensures
        ('A' <= c && c <= 'Z') ==> r as u32 == c as u32 + 32,
        !('A' <= c && c <= 'Z') ==> r == c,
{
    c.to_ascii_lowercase()
}

/// One tab: an identifier, a label, and an optional shortcut key.
#[derive(Debug, Clone)]
pub struct Tab {
    pub id: String,
    pub label: String,
    pub key: Option<char>,
}

impl Tab {
    /// A tab without a shortcut key.
    pub fn new(id: &str, label: &str) -> (r: Tab)
        ensures
            r.id@ == id@,
            r.label@ == label@,
            r.key is None,
    {
        Tab { id: String::from_str(id), label: String::from_str(label), key: None }
    }

    /// Sets the shortcut key.
    pub fn key(self, key: char) -> (r: Tab)
        ensures
            r.id@ == self.id@,
            r.label@ == self.label@,
            r.key == Some(key),
    {
        Tab { key: Some(key), ..self }
    }

    /// Takes the first letter of the label, in lower case for an ASCII
    /// capital, as the shortcut key; an empty label gives no key.
    pub fn auto_key(self) -> (r: Tab)
        ensures
            r.id@ == self.id@,
            r.label@ == self.label@,
            self.label@.len() == 0 ==> r.key is None,
            self.label@.len() > 0 ==> (r.key matches Some(k) && (('A' <= self.label@[0]
                && self.label@[0] <= 'Z') ==> k as u32 == self.label@[0] as u32 + 32) && (!(
            'A' <= self.label@[0] && self.label@[0] <= 'Z') ==> k == self.label@[0])),
    {
        let n = self.label.as_str().unicode_len();
        if n == 0 {
            Tab { key: None, ..self }
        } else {
            let first = self.label.as_str().get_char(0);
            Tab { key: Some(ascii_lower(first)), ..self }
        }
    }
}

/// How one tab is drawn: the selected tab in cyan between brackets, the
/// others between spaces.
pub open spec fn tab_text(label: Seq<char>, selected: bool) -> Seq<char> {
    if selected {
        painted(Color::Cyan.fg_code(), seq!['['] + label + seq![']'])
    } else {
        seq![' '] + label + seq![' ']
    }
}

/// The first `k` tabs, drawn one after the other.
pub open spec fn tabs_text(tabs: Seq<Tab>, selected: int, k: int) -> Seq<char>
    decreases k,
{
    if k <= 0 {
        Seq::empty()
    } else {
        tabs_text(tabs, selected, k - 1) + tab_text(tabs[k - 1].label@, k - 1 == selected)
    }
}

/// The first index below `k` whose tab has the id `id`, if any.
pub open spec fn first_with_id(tabs: Seq<Tab>, id: Seq<char>, k: int) -> Option<int>
    decreases k,
{
    if k <= 0 {
        None
    } else {
        match first_with_id(tabs, id, k - 1) {
            Some(i) => Some(i),
            None => if tabs[k - 1].id@ == id { Some(k - 1) } else { None },
        }
    }
}

/// The first index below `k` whose tab has the shortcut `key`, if any.
pub open spec fn first_with_key(tabs: Seq<Tab>, key: char, k: int) -> Option<int>
    decreases k,
{
    if k <= 0 {
        None
    } else {
        match first_with_key(tabs, key, k - 1) {
            Some(i) => Some(i),
            None => if tabs[k - 1].key == Some(key) { Some(k - 1) } else { None },
        }
    }
}

proof fn lemma_first_with_id_bound(tabs: Seq<Tab>, id: Seq<char>, j: int, k: int)
    requires
        0 <= j <= k,
        first_with_id(tabs, id, j) is Some,
    ensures
        first_with_id(tabs, id, k) == first_with_id(tabs, id, j),
    decreases k - j,
{
    if k > j {
        lemma_first_with_id_bound(tabs, id, j, k - 1);
    }
}

proof fn lemma_first_with_key_bound(tabs: Seq<Tab>, key: char, j: int, k: int)
    requires
        0 <= j <= k,
        first_with_key(tabs, key, j) is Some,
    ensures
        first_with_key(tabs, key, k) == first_with_key(tabs, key, j),
    decreases k - j,
{
    if k > j {
        lemma_first_with_key_bound(tabs, key, j, k - 1);
    }
}

/// A bar of tabs with one of them selected.
#[derive(Debug, Clone)]
pub struct TabBar {
    tabs: Vec<Tab>,
    selected: usize,
}

impl TabBar {
    pub closed spec fn spec_tabs(&self) -> Seq<Tab> {
        self.tabs@
    }

    pub closed spec fn spec_selected(&self) -> usize {
        self.selected
    }

    /// The rendered bar.
    pub open spec fn rendered(&self) -> Seq<char> {
        tabs_text(self.spec_tabs(), self.spec_selected() as int, self.spec_tabs().len() as int)
    }

    /// A bar without tabs.
    pub fn new() -> (r: TabBar)
        ensures
            r.spec_tabs().len() == 0,
            r.spec_selected() == 0,
    {
        TabBar { tabs: Vec::new(), selected: 0 }
    }

    /// Sets the tabs and selects the first.
    pub fn tabs(self, tabs: Vec<Tab>) -> (r: TabBar)
        ensures
            r.spec_tabs() == tabs@,
            r.spec_selected() == 0,
    {
        TabBar { tabs, selected: 0 }
    }

    /// The tabs.
    pub fn get_tabs(&self) -> (r: &Vec<Tab>)
        ensures
            r@ == self.spec_tabs(),
    {
        &self.tabs
    }

    /// Index of the selected tab.
    pub fn selected(&self) -> (r: usize)
        ensures
            r == self.spec_selected(),
    {
        self.selected
    }

    /// Selects the first tab whose id is `id`; with no such tab, nothing
    /// changes.
    pub fn set_selected(&mut self, id: &str)
        ensures
            final(self).spec_tabs() == old(self).spec_tabs(),
            first_with_id(old(self).spec_tabs(), id@, old(self).spec_tabs().len() as int)
                matches Some(i) ==> final(self).spec_selected() == i,
            first_with_id(old(self).spec_tabs(), id@, old(self).spec_tabs().len() as int) is None
                ==> final(self).spec_selected() == old(self).spec_selected(),
    {
        let target = String::from_str(id);
        let mut i: usize = 0;
        while i < self.tabs.len()
            invariant
                i <= self.tabs@.len(),
                self.tabs@ == old(self).tabs@,
                self.selected == old(self).selected,
                target@ == id@,
                first_with_id(self.tabs@, id@, i as int) is None,
            decreases self.tabs@.len() - i,
        {
            if self.tabs[i].id == target {
                assert(first_with_id(self.tabs@, id@, i + 1) == Some(i as int));
                self.selected = i;
                proof {
                    lemma_first_with_id_bound(self.tabs@, id@, i + 1, self.tabs@.len() as int);
                }
                return;
            }
            i = i + 1;
        }
    }

    /// The id of the first tab whose shortcut is `key`.
    pub fn tab_for_key(&self, key: char) -> (r: Option<&str>)
        ensures
            r is None <==> first_with_key(self.spec_tabs(), key, self.spec_tabs().len() as int)
                is None,
            r matches Some(id) ==> (first_with_key(
                self.spec_tabs(),
                key,
                self.spec_tabs().len() as int,
            ) matches Some(i) && 0 <= i < self.spec_tabs().len() && id@
                == self.spec_tabs()[i].id@),
    {
        let mut i: usize = 0;
        while i < self.tabs.len()
            invariant
                i <= self.tabs@.len(),
                first_with_key(self.tabs@, key, i as int) is None,
            decreases self.tabs@.len() - i,
        {
            let hit = match self.tabs[i].key {
                Some(k) => k == key,
                None => false,
            };
            if hit {
                assert(first_with_key(self.tabs@, key, i + 1) == Some(i as int));
                proof {
                    lemma_first_with_key_bound(self.tabs@, key, i + 1, self.tabs@.len() as int);
                }
                return Some(self.tabs[i].id.as_str());
            }
            i = i + 1;
        }
        None
    }

    /// Renders the bar on one line.
    pub fn render(&self) -> (r: String)
        ensures
            r@ == self.rendered(),
    {
        let mut out = String::new();
        let mut i: usize = 0;
        while i < self.tabs.len()
            invariant
                i <= self.tabs@.len(),
                out@ == tabs_text(self.tabs@, self.selected as int, i as int),
            decreases self.tabs@.len() - i,
        {
            let label = self.tabs[i].label.as_str();
            let ghost before = out@;
            if i == self.selected {
                let mut body = String::new();
                push_char(&mut body, '[');
                body.append(label);
                push_char(&mut body, ']');
                push_painted(&mut out, Color::Cyan, body.as_str());
                assert(body@ =~= seq!['['] + label@ + seq![']']);
            } else {
                push_char(&mut out, ' ');
                out.append(label);
                push_char(&mut out, ' ');
                assert(out@ =~= before + (seq![' '] + label@ + seq![' ']));
            }
            i = i + 1;
        }
        out
    }
}

} // verus!
