//! The executable window registry and its façade operations.
//!
//! `WindowManager` keeps the live windows as a vector of label-keyed
//! entries with pairwise-distinct labels; its view is the registry map of
//! the model. Each operation's contract ties the new registry and the
//! returned string to the model's transition functions.

use vstd::prelude::*;
use vstd::string::StringExecFns;
use crate::model::DEFAULT_HEIGHT;
use crate::model::DEFAULT_WIDTH;
use crate::model::OptionsModel;
use crate::model::RegistryModel;
use crate::model::WindowModel;
use crate::model::close_next;
use crate::model::create_or_show_next;
use crate::model::create_or_show_status;
use crate::model::hide_next;
use crate::model::label_required_msg;
use crate::model::maximize_next;
use crate::model::minimize_next;
use crate::model::not_found_msg;
use crate::model::show_next;
use crate::model::toggle_maximize_next;
use crate::model::toggle_maximize_status;
use crate::model::unmaximize_next;

verus! {

/// The concrete state of one live window.
pub struct WindowState {
    /// The window's title text.
    pub title: String,
    /// The navigation target the window was created with.
    pub url: String,
    /// Inner width in logical pixels.
    pub width: u32,
    /// Inner height in logical pixels.
    pub height: u32,
    /// Whether the window is shown.
    pub visible: bool,
    /// Whether the window has keyboard focus.
    pub focused: bool,
    /// Whether the window is minimized.
    pub minimized: bool,
    /// Whether the window is maximized.
    pub maximized: bool,
}

impl View for WindowState {
    type V = WindowModel;

    open spec fn view(&self) -> WindowModel {
        WindowModel {
            title: self.title@,
            url: self.url@,
            width: self.width,
            height: self.height,
            visible: self.visible,
            focused: self.focused,
            minimized: self.minimized,
            maximized: self.maximized,
        }
    }
}

/// A window-creation request: label and url are required, the rest
/// default when omitted.
pub struct CreateWindowOptions {
    /// Unique key of the window to create or reveal.
    pub label: String,
    /// Navigation target for a newly built window.
    pub url: String,
    /// Requested title; `None` asks for the default.
    pub title: Option<String>,
    /// Requested inner width; `None` asks for the default.
    pub width: Option<u32>,
    /// Requested inner height; `None` asks for the default.
    pub height: Option<u32>,
}

impl View for CreateWindowOptions {
    type V = OptionsModel;

    open spec fn view(&self) -> OptionsModel {
        OptionsModel {
            label: self.label@,
            url: self.url@,
            title: match self.title {
                Option::Some(t) => Option::Some(t@),
                Option::None => Option::None,
            },
            width: self.width,
            height: self.height,
        }
    }
}

/// One registry entry: a label and the window living under it.
pub struct WindowEntry {
    /// The entry's key.
    pub label: String,
    /// The window stored under the key.
    pub window: WindowState,
}

/// The registry map described by a sequence of entries: later entries
/// would shadow earlier ones, but the registry keeps labels distinct.
pub open spec fn entries_map(s: Seq<WindowEntry>) -> RegistryModel
    decreases s.len(),
{
    if s.len() == 0 {
        Map::empty()
    } else {
        entries_map(s.drop_last()).insert(s.last().label@, s.last().window@)
    }
}

/// No two entries share a label.
pub open spec fn labels_unique(s: Seq<WindowEntry>) -> bool {
    forall|i: int, j: int| 0 <= i < j < s.len() ==> s[i].label@ != s[j].label@
}

/// A label that occurs in no entry is absent from the registry map.
proof fn lemma_entries_map_absent(s: Seq<WindowEntry>, k: Seq<char>)
    requires
        forall|i: int| 0 <= i < s.len() ==> s[i].label@ != k,
    ensures
        !entries_map(s).contains_key(k),
    decreases s.len(),
{
    if s.len() > 0 {
        assert(forall|i: int| 0 <= i < s.drop_last().len() ==> s.drop_last()[i] == s[i]);
        lemma_entries_map_absent(s.drop_last(), k);
    }
}

/// With distinct labels, each entry's label maps to that entry's window.
proof fn lemma_entries_map_present(s: Seq<WindowEntry>, i: int)
    requires
        labels_unique(s),
        0 <= i < s.len(),
    ensures
        entries_map(s).contains_key(s[i].label@),
        entries_map(s)[s[i].label@] == s[i].window@,
    decreases s.len(),
{
    let t = s.drop_last();
    assert(forall|j: int| 0 <= j < t.len() ==> t[j] == s[j]);
    if i < s.len() - 1 {
        lemma_entries_map_present(t, i);
        assert(s.last().label@ != s[i].label@);
    }
}

/// Updating an entry in place, keeping its label, updates the registry
/// map at that label.
proof fn lemma_entries_map_update(s: Seq<WindowEntry>, i: int, e: WindowEntry)
    requires
        labels_unique(s),
        0 <= i < s.len(),
        e.label@ == s[i].label@,
    ensures
        entries_map(s.update(i, e)) =~= entries_map(s).insert(e.label@, e.window@),
    decreases s.len(),
{
    let k = e.label@;
    let t = s.drop_last();
    assert(forall|j: int| 0 <= j < t.len() ==> t[j] == s[j]);
    if i == s.len() - 1 {
        assert(s.update(i, e).drop_last() =~= t);
        assert(s.update(i, e).last() == e);
    } else {
        lemma_entries_map_update(t, i, e);
        assert(s.update(i, e).drop_last() =~= t.update(i, e));
        assert(s.update(i, e).last() == s.last());
        assert(s.last().label@ != k);
        assert(entries_map(t).insert(k, e.window@).insert(s.last().label@, s.last().window@)
            =~= entries_map(t).insert(s.last().label@, s.last().window@).insert(k, e.window@));
    }
}

/// Removing an entry removes exactly its label from the registry map.
proof fn lemma_entries_map_remove(s: Seq<WindowEntry>, i: int)
    requires
        labels_unique(s),
        0 <= i < s.len(),
    ensures
        entries_map(s.remove(i)) =~= entries_map(s).remove(s[i].label@),
    decreases s.len(),
{
    let k = s[i].label@;
    let t = s.drop_last();
    assert(forall|j: int| 0 <= j < t.len() ==> t[j] == s[j]);
    if i == s.len() - 1 {
        assert(s.remove(i) =~= t);
        lemma_entries_map_absent(t, k);
        assert(entries_map(t).insert(k, s.last().window@).remove(k) =~= entries_map(t));
    } else {
        lemma_entries_map_remove(t, i);
        assert(s.remove(i).len() == s.len() - 1);
        assert(s.remove(i).last() == s.last());
        assert(s.remove(i).drop_last() =~= t.remove(i));
        assert(s.last().label@ != k);
        assert(entries_map(t).remove(k).insert(s.last().label@, s.last().window@)
            =~= entries_map(t).insert(s.last().label@, s.last().window@).remove(k));
    }
}

/// With distinct labels the registry map has exactly one window per
/// entry.
proof fn lemma_entries_map_len(s: Seq<WindowEntry>)
    requires
        labels_unique(s),
    ensures
        entries_map(s).dom().finite(),
        entries_map(s).len() == s.len(),
    decreases s.len(),
{
    if s.len() > 0 {
        let t = s.drop_last();
        assert(forall|j: int| 0 <= j < t.len() ==> t[j] == s[j]);
        lemma_entries_map_len(t);
        lemma_entries_map_absent(t, s.last().label@);
    }
}

/// Replacing one entry by another under the same label keeps labels
/// distinct and updates the registry map at that label alone.
proof fn lemma_update_entry(s0: Seq<WindowEntry>, s1: Seq<WindowEntry>, i: int)
    requires
        labels_unique(s0),
        0 <= i < s0.len(),
        s1 == s0.update(i, s1[i]),
        s1[i].label@ == s0[i].label@,
    ensures
        labels_unique(s1),
        entries_map(s1) =~= entries_map(s0).insert(s0[i].label@, s1[i].window@),
{
    lemma_entries_map_update(s0, i, s1[i]);
    assert forall|a: int, b: int| 0 <= a < b < s1.len()
        implies (#[trigger] s1[a]).label@ != (#[trigger] s1[b]).label@
    by {
        if a != i {
            assert(s1[a] == s0[a]);
        }
        if b != i {
            assert(s1[b] == s0[b]);
        }
    }
}

/// The window-registry façade: the live windows, keyed by label.
pub struct WindowManager {
    windows: Vec<WindowEntry>,
}

impl View for WindowManager {
    type V = RegistryModel;

    closed spec fn view(&self) -> RegistryModel {
        entries_map(self.windows@)
    }
}

impl WindowManager {
    /// At most one live window per label.
    pub closed spec fn wf(&self) -> bool {
        labels_unique(self.windows@)
    }

    /// An empty registry: no live windows.
    pub fn new() -> (r: WindowManager)
        ensures
            r.wf(),
            r@ =~= Map::<Seq<char>, WindowModel>::empty(),
    {
        WindowManager { windows: Vec::new() }
    }

    /// Index of the entry holding `label`, if one exists.
    fn find_index(&self, label: &String) -> (r: Option<usize>)
        ensures
            match r {
                Option::Some(i) =>
                    i < self.windows@.len() && self.windows@[i as int].label@ == label@,
                Option::None =>
                    forall|i: int| 0 <= i < self.windows@.len()
                        ==> self.windows@[i].label@ != label@,
            },
    {
        let mut i: usize = 0;
        while i < self.windows.len()
            invariant
                i <= self.windows@.len(),
                forall|j: int| 0 <= j < i ==> self.windows@[j].label@ != label@,
            decreases self.windows@.len() - i,
        {
            if self.windows[i].label == *label {
                return Option::Some(i);
            }
            i = i + 1;
        }
        Option::None
    }

    /// Create a window under a fresh label, or reveal (unminimize, focus,
    /// show) the window already living under it. The model registry never
    /// fails to construct a window; failures of the host's build step
    /// belong to the host adapter.
    pub fn win_create_window(&mut self, options: CreateWindowOptions) -> (r: Result<String, String>)
        requires
            old(self).wf(),
        ensures
            final(self).wf(),
            r matches Result::Ok(s) && s@ == create_or_show_status(old(self)@, options@),
            final(self)@ == create_or_show_next(old(self)@, options@),
    {
        let CreateWindowOptions { label, url, title, width, height } = options;
        match self.find_index(&label) {
            Option::Some(i) => {
                let ghost s0 = self.windows@;
                proof {
                    lemma_entries_map_present(s0, i as int);
                }
                let entry = &mut self.windows[i];
                entry.window.minimized = false;
                entry.window.focused = true;
                entry.window.visible = true;
                proof {
                    lemma_update_entry(s0, self.windows@, i as int);
                }
                Result::Ok(String::from_str("existing"))
            }
            Option::None => {
                let ghost s0 = self.windows@;
                proof {
                    lemma_entries_map_absent(s0, label@);
                }
                let window = WindowState {
                    title: match title {
                        Option::Some(t) => t,
                        Option::None => String::from_str("Ren Flow"),
                    },
                    url,
                    width: match width {
                        Option::Some(w) => w,
                        Option::None => DEFAULT_WIDTH,
                    },
                    height: match height {
                        Option::Some(h) => h,
                        Option::None => DEFAULT_HEIGHT,
                    },
                    visible: true,
                    focused: true,
                    minimized: false,
                    maximized: false,
                };
                self.windows.push(WindowEntry { label, window });
                proof {
                    assert(self.windows@.drop_last() =~= s0);
                    assert forall|a: int, b: int| 0 <= a < b < self.windows@.len()
                        implies (#[trigger] self.windows@[a]).label@
                            != (#[trigger] self.windows@[b]).label@
                    by {
                        assert(self.windows@[a] == s0[a]);
                    }
                }
                Result::Ok(String::from_str("created"))
            }
        }
    }

    /// Close the window under `label`: the entry leaves the registry.
    pub fn win_close_window(&mut self, label: String) -> (r: Result<String, String>)
        requires
            old(self).wf(),
        ensures
            final(self).wf(),
            old(self)@.contains_key(label@) ==> {
                &&& r matches Result::Ok(s) && s@ == "closed"@
                &&& final(self)@ == close_next(old(self)@, label@)
            },
            !old(self)@.contains_key(label@) ==> {
                &&& r matches Result::Err(e) && e@ == not_found_msg(label@)
                &&& final(self)@ == old(self)@
            },
    {
        match self.find_index(&label) {
            Option::Some(i) => {
                proof {
                    lemma_entries_map_present(self.windows@, i as int);
                    lemma_entries_map_remove(self.windows@, i as int);
                    assert(forall|a: int, b: int|
                        0 <= a < b < self.windows@.remove(i as int).len()
                            ==> (#[trigger] self.windows@.remove(i as int)[a]).label@
                                != (#[trigger] self.windows@.remove(i as int)[b]).label@);
                }
                self.windows.remove(i);
                Result::Ok(String::from_str("closed"))
            }
            Option::None => {
                proof {
                    lemma_entries_map_absent(self.windows@, label@);
                }
                Result::Err(not_found_message(&label))
            }
        }
    }

    /// Show the window under `label` and give it focus.
    pub fn win_show_window(&mut self, label: String) -> (r: Result<String, String>)
        requires
            old(self).wf(),
        ensures
            final(self).wf(),
            old(self)@.contains_key(label@) ==> {
                &&& r matches Result::Ok(s) && s@ == "shown"@
                &&& final(self)@ == show_next(old(self)@, label@)
            },
            !old(self)@.contains_key(label@) ==> {
                &&& r matches Result::Err(e) && e@ == not_found_msg(label@)
                &&& final(self)@ == old(self)@
            },
    {
        match self.find_index(&label) {
            Option::Some(i) => {
                let ghost s0 = self.windows@;
                proof {
                    lemma_entries_map_present(s0, i as int);
                }
                let entry = &mut self.windows[i];
                entry.window.visible = true;
                entry.window.focused = true;
                proof {
                    lemma_update_entry(s0, self.windows@, i as int);
                }
                Result::Ok(String::from_str("shown"))
            }
            Option::None => {
                proof {
                    lemma_entries_map_absent(self.windows@, label@);
                }
                Result::Err(not_found_message(&label))
            }
        }
    }

    /// Hide the window under `label`.
    pub fn win_hide_window(&mut self, label: String) -> (r: Result<String, String>)
        requires
            old(self).wf(),
        ensures
            final(self).wf(),
            old(self)@.contains_key(label@) ==> {
                &&& r matches Result::Ok(s) && s@ == "hidden"@
                &&& final(self)@ == hide_next(old(self)@, label@)
            },
            !old(self)@.contains_key(label@) ==> {
                &&& r matches Result::Err(e) && e@ == not_found_msg(label@)
                &&& final(self)@ == old(self)@
            },
    {
        match self.find_index(&label) {
            Option::Some(i) => {
                let ghost s0 = self.windows@;
                proof {
                    lemma_entries_map_present(s0, i as int);
                }
                let entry = &mut self.windows[i];
                entry.window.visible = false;
                proof {
                    lemma_update_entry(s0, self.windows@, i as int);
                }
                Result::Ok(String::from_str("hidden"))
            }
            Option::None => {
                proof {
                    lemma_entries_map_absent(self.windows@, label@);
                }
                Result::Err(not_found_message(&label))
            }
        }
    }

    /// Begin an interactive drag of the window under `label`. A request
    /// that names no label is rejected outright: there is no
    /// default-window fallback. Dragging reads the registry but changes
    /// no modelled window state.
    pub fn win_start_dragging(&self, label: Option<String>) -> (r: Result<String, String>)
        requires
            self.wf(),
        ensures
            match label {
                Option::None => r matches Result::Err(e) && e@ == label_required_msg(),
                Option::Some(l) => {
                    if self@.contains_key(l@) {
                        r matches Result::Ok(s) && s@ == "dragging"@
                    } else {
                        r matches Result::Err(e) && e@ == not_found_msg(l@)
                    }
                },
            },
    {
        match label {
            Option::Some(l) => {
                match self.find_index(&l) {
                    Option::Some(i) => {
                        proof {
                            lemma_entries_map_present(self.windows@, i as int);
                        }
                        Result::Ok(String::from_str("dragging"))
                    }
                    Option::None => {
                        proof {
                            lemma_entries_map_absent(self.windows@, l@);
                        }
                        Result::Err(not_found_message(&l))
                    }
                }
            }
            Option::None => Result::Err(label_required_message()),
        }
    }

    /// Minimize the window under `label`.
    pub fn win_minimize(&mut self, label: String) -> (r: Result<String, String>)
        requires
            old(self).wf(),
        ensures
            final(self).wf(),
            old(self)@.contains_key(label@) ==> {
                &&& r matches Result::Ok(s) && s@ == "minimized"@
                &&& final(self)@ == minimize_next(old(self)@, label@)
            },
            !old(self)@.contains_key(label@) ==> {
                &&& r matches Result::Err(e) && e@ == not_found_msg(label@)
                &&& final(self)@ == old(self)@
            },
    {
        match self.find_index(&label) {
            Option::Some(i) => {
                let ghost s0 = self.windows@;
                proof {
                    lemma_entries_map_present(s0, i as int);
                }
                let entry = &mut self.windows[i];
                entry.window.minimized = true;
                proof {
                    lemma_update_entry(s0, self.windows@, i as int);
                }
                Result::Ok(String::from_str("minimized"))
            }
            Option::None => {
                proof {
                    lemma_entries_map_absent(self.windows@, label@);
                }
                Result::Err(not_found_message(&label))
            }
        }
    }

    /// Maximize the window under `label`.
    pub fn win_maximize(&mut self, label: String) -> (r: Result<String, String>)
        requires
            old(self).wf(),
        ensures
            final(self).wf(),
            old(self)@.contains_key(label@) ==> {
                &&& r matches Result::Ok(s) && s@ == "maximized"@
                &&& final(self)@ == maximize_next(old(self)@, label@)
            },
            !old(self)@.contains_key(label@) ==> {
                &&& r matches Result::Err(e) && e@ == not_found_msg(label@)
                &&& final(self)@ == old(self)@
            },
    {
        match self.find_index(&label) {
            Option::Some(i) => {
                let ghost s0 = self.windows@;
                proof {
                    lemma_entries_map_present(s0, i as int);
                }
                let entry = &mut self.windows[i];
                entry.window.maximized = true;
                proof {
                    lemma_update_entry(s0, self.windows@, i as int);
                }
                Result::Ok(String::from_str("maximized"))
            }
            Option::None => {
                proof {
                    lemma_entries_map_absent(self.windows@, label@);
                }
                Result::Err(not_found_message(&label))
            }
        }
    }

    /// Unmaximize the window under `label`.
    pub fn win_unmaximize(&mut self, label: String) -> (r: Result<String, String>)
        requires
            old(self).wf(),
        ensures
            final(self).wf(),
            old(self)@.contains_key(label@) ==> {
                &&& r matches Result::Ok(s) && s@ == "unmaximized"@
                &&& final(self)@ == unmaximize_next(old(self)@, label@)
            },
            !old(self)@.contains_key(label@) ==> {
                &&& r matches Result::Err(e) && e@ == not_found_msg(label@)
                &&& final(self)@ == old(self)@
            },
    {
        match self.find_index(&label) {
            Option::Some(i) => {
                let ghost s0 = self.windows@;
                proof {
                    lemma_entries_map_present(s0, i as int);
                }
                let entry = &mut self.windows[i];
                entry.window.maximized = false;
                proof {
                    lemma_update_entry(s0, self.windows@, i as int);
                }
                Result::Ok(String::from_str("unmaximized"))
            }
            Option::None => {
                proof {
                    lemma_entries_map_absent(self.windows@, label@);
                }
                Result::Err(not_found_message(&label))
            }
        }
    }

    /// Flip the maximized state of the window under `label` and report
    /// the state the window ends in. The read and the write are one
    /// operation on the model; the host adapter performs them as two.
    pub fn win_toggle_maximize(&mut self, label: String) -> (r: Result<String, String>)
        requires
            old(self).wf(),
        ensures
            final(self).wf(),
            old(self)@.contains_key(label@) ==> {
                &&& r matches Result::Ok(s) && s@ == toggle_maximize_status(old(self)@, label@)
                &&& final(self)@ == toggle_maximize_next(old(self)@, label@)
            },
            !old(self)@.contains_key(label@) ==> {
                &&& r matches Result::Err(e) && e@ == not_found_msg(label@)
                &&& final(self)@ == old(self)@
            },
    {
        match self.find_index(&label) {
            Option::Some(i) => {
                let ghost s0 = self.windows@;
                proof {
                    lemma_entries_map_present(s0, i as int);
                }
                let was_maximized = self.windows[i].window.maximized;
                let entry = &mut self.windows[i];
                entry.window.maximized = !was_maximized;
                proof {
                    lemma_update_entry(s0, self.windows@, i as int);
                }
                if was_maximized {
                    Result::Ok(String::from_str("unmaximized"))
                } else {
                    Result::Ok(String::from_str("maximized"))
                }
            }
            Option::None => {
                proof {
                    lemma_entries_map_absent(self.windows@, label@);
                }
                Result::Err(not_found_message(&label))
            }
        }
    }

    /// How many live windows the registry holds. With labels pairwise
    /// distinct this equals the size of the registry map, so no label
    /// ever carries two windows.
    pub fn window_count(&self) -> (n: usize)
        requires
            self.wf(),
        ensures
            n == self@.len(),
    {
        proof {
            lemma_entries_map_len(self.windows@);
        }
        self.windows.len()
    }

    /// The state of the window under `label`, if one is live.
    pub fn window_state(&self, label: &String) -> (r: Option<&WindowState>)
        requires
            self.wf(),
        ensures
            self@.contains_key(label@) ==> (r matches Option::Some(w) && w@ == self@[label@]),
            !self@.contains_key(label@) ==> r is None,
    {
        match self.find_index(label) {
            Option::Some(i) => {
                proof {
                    lemma_entries_map_present(self.windows@, i as int);
                }
                Option::Some(&self.windows[i].window)
            }
            Option::None => {
                proof {
                    lemma_entries_map_absent(self.windows@, label@);
                }
                Option::None
            }
        }
    }

    /// Report whether the window under `label` is maximized. The shared
    /// borrow guarantees the query changes no window state.
    pub fn win_is_maximized(&self, label: String) -> (r: Result<bool, String>)
        requires
            self.wf(),
        ensures
            self@.contains_key(label@) ==> (r matches Result::Ok(b) && b == self@[label@].maximized),
            !self@.contains_key(label@) ==> (r matches Result::Err(e) && e@ == not_found_msg(label@)),
    {
        match self.find_index(&label) {
            Option::Some(i) => {
                proof {
                    lemma_entries_map_present(self.windows@, i as int);
                }
                Result::Ok(self.windows[i].window.maximized)
            }
            Option::None => {
                proof {
                    lemma_entries_map_absent(self.windows@, label@);
                }
                Result::Err(not_found_message(&label))
            }
        }
    }
}

/// The error text reported when `label` has no live window.
pub fn not_found_message(label: &String) -> (m: String)
    ensures
        m@ == not_found_msg(label@),
{
    let mut m = String::from_str("window not found: ");
    m.append(label.as_str());
    m
}

/// The error text reported when a drag request names no window.
pub fn label_required_message() -> (m: String)
    ensures
        m@ == label_required_msg(),
{
    String::from_str("label is required")
}

} // verus!
