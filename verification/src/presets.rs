//! The persisted document: presets per usage context, the active
//! selections, and the settings carried along with them.

use vstd::prelude::*;

verus! {

/// A named reusable prompt.
#[derive(Debug, PartialEq, Eq)]
pub struct Preset {
    pub id: String,
    pub name: String,
    pub prompt: String,
}

/// The three contexts in which presets are used. Each has its own list.
#[derive(Clone, Copy, Debug, PartialEq, Eq, Structural)]
pub enum PresetContext {
    Screenshot,
    InputField,
    Selection,
}

/// The presets of each context, in the user's order.
#[derive(Debug, PartialEq, Eq)]
pub struct PresetCollection {
    pub screenshot: Vec<Preset>,
    pub input_field: Vec<Preset>,
    pub selection: Vec<Preset>,
}

/// For each context, the id of the preset in use, if any. An id that names
/// no preset of its list is allowed and stands for no preset.
#[derive(Debug, PartialEq, Eq)]
pub struct ActivePresetIds {
    pub screenshot: Option<String>,
    pub input_field: Option<String>,
    pub selection: Option<String>,
}

/// Settings, stored and handed back as they came.
#[derive(Debug, PartialEq, Eq)]
pub struct SettingsState {
    pub auto_open_on_start: bool,
    pub openai_api_key: String,
}

/// Hotkeys, stored and handed back as they came.
#[derive(Debug, PartialEq, Eq)]
pub struct HotkeysState {
    pub screenshot: String,
}

/// Everything that is kept between runs.
#[derive(Debug, PartialEq, Eq)]
pub struct PersistedState {
    pub presets: PresetCollection,
    /// The id to give to the next new preset. Whoever adds a preset advances
    /// it; nothing here does.
    pub next_preset_id: i32,
    pub active_preset_ids: ActivePresetIds,
    pub settings: Option<SettingsState>,
    pub hotkeys: Option<HotkeysState>,
}

/// What a [`Preset`] holds.
pub struct PresetView {
    pub id: Seq<char>,
    pub name: Seq<char>,
    pub prompt: Seq<char>,
}

/// What a [`PresetCollection`] holds.
pub struct PresetCollectionView {
    pub screenshot: Seq<PresetView>,
    pub input_field: Seq<PresetView>,
    pub selection: Seq<PresetView>,
}

/// What an [`ActivePresetIds`] holds.
pub struct ActivePresetIdsView {
    pub screenshot: Option<Seq<char>>,
    pub input_field: Option<Seq<char>>,
    pub selection: Option<Seq<char>>,
}

/// What a [`SettingsState`] holds.
pub struct SettingsView {
    pub auto_open_on_start: bool,
    pub openai_api_key: Seq<char>,
}

/// What a [`HotkeysState`] holds.
pub struct HotkeysView {
    pub screenshot: Seq<char>,
}

/// What a [`PersistedState`] holds.
pub struct PersistedStateView {
    pub presets: PresetCollectionView,
    pub next_preset_id: int,
    pub active_preset_ids: ActivePresetIdsView,
    pub settings: Option<SettingsView>,
    pub hotkeys: Option<HotkeysView>,
}

impl View for Preset {
    type V = PresetView;

    open spec fn view(&self) -> PresetView {
        PresetView { id: self.id@, name: self.name@, prompt: self.prompt@ }
    }
}

/// The presets of a list, each by what it holds.
pub open spec fn preset_views(list: Seq<Preset>) -> Seq<PresetView> {
    Seq::new(list.len(), |i: int| list[i]@)
}

/// An optional string by its characters.
pub open spec fn text_view(text: Option<String>) -> Option<Seq<char>> {
    match text {
        Some(s) => Some(s@),
        None => None,
    }
}

impl View for PresetCollection {
    type V = PresetCollectionView;

    open spec fn view(&self) -> PresetCollectionView {
        PresetCollectionView {
            screenshot: preset_views(self.screenshot@),
            input_field: preset_views(self.input_field@),
            selection: preset_views(self.selection@),
        }
    }
}

impl View for ActivePresetIds {
    type V = ActivePresetIdsView;

    open spec fn view(&self) -> ActivePresetIdsView {
        ActivePresetIdsView {
            screenshot: text_view(self.screenshot),
            input_field: text_view(self.input_field),
            selection: text_view(self.selection),
        }
    }
}

impl View for SettingsState {
    type V = SettingsView;

    open spec fn view(&self) -> SettingsView {
        SettingsView {
            auto_open_on_start: self.auto_open_on_start,
            openai_api_key: self.openai_api_key@,
        }
    }
}

impl View for HotkeysState {
    type V = HotkeysView;

    open spec fn view(&self) -> HotkeysView {
        HotkeysView { screenshot: self.screenshot@ }
    }
}

impl View for PersistedState {
    type V = PersistedStateView;

    open spec fn view(&self) -> PersistedStateView {
        PersistedStateView {
            presets: self.presets@,
            next_preset_id: self.next_preset_id as int,
            active_preset_ids: self.active_preset_ids@,
            settings: match self.settings {
                Some(s) => Some(s@),
                None => None,
            },
            hotkeys: match self.hotkeys {
                Some(h) => Some(h@),
                None => None,
            },
        }
    }
}

impl PresetCollectionView {
    /// No preset in any context.
    pub open spec fn empty() -> PresetCollectionView {
        PresetCollectionView {
            screenshot: Seq::empty(),
            input_field: Seq::empty(),
            selection: Seq::empty(),
        }
    }

    /// The list of one context.
    pub open spec fn of(self, context: PresetContext) -> Seq<PresetView> {
        match context {
            PresetContext::Screenshot => self.screenshot,
            PresetContext::InputField => self.input_field,
            PresetContext::Selection => self.selection,
        }
    }
}

impl ActivePresetIdsView {
    /// No preset in use in any context.
    pub open spec fn none() -> ActivePresetIdsView {
        ActivePresetIdsView { screenshot: None, input_field: None, selection: None }
    }

    /// The selection of one context.
    pub open spec fn of(self, context: PresetContext) -> Option<Seq<char>> {
        match context {
            PresetContext::Screenshot => self.screenshot,
            PresetContext::InputField => self.input_field,
            PresetContext::Selection => self.selection,
        }
    }
}

impl PersistedStateView {
    /// The state of a fresh installation: no presets, the counter at 1, no
    /// selections, no settings, no hotkeys.
    pub open spec fn initial() -> PersistedStateView {
        PersistedStateView {
            presets: PresetCollectionView::empty(),
            next_preset_id: 1,
            active_preset_ids: ActivePresetIdsView::none(),
            settings: None,
            hotkeys: None,
        }
    }
}

/// The value that the preset counter starts from.
pub fn default_next_preset_id() -> (id: i32)
    ensures
        id == 1,
{
    1
}

impl Clone for Preset {
    fn clone(&self) -> (copy: Preset)
        ensures
            copy@ == self@,
    {
        Preset { id: self.id.clone(), name: self.name.clone(), prompt: self.prompt.clone() }
    }
}

/// Copies a list of presets.
fn clone_presets(list: &Vec<Preset>) -> (copy: Vec<Preset>)
    ensures
        preset_views(copy@) == preset_views(list@),
{
    let mut copy: Vec<Preset> = Vec::new();
    let mut i: usize = 0;
    while i < list.len()
        invariant
            i <= list.len(),
            copy.len() == i,
            forall|k: int| 0 <= k < i ==> (#[trigger] copy@[k])@ == list@[k]@,
        decreases list.len() - i,
    {
        copy.push(list[i].clone());
        i += 1;
    }
    copy
}

/// Copies an optional string.
fn clone_text(text: &Option<String>) -> (copy: Option<String>)
    ensures
        text_view(copy) == text_view(*text),
{
    match text {
        Some(s) => Some(s.clone()),
        None => None,
    }
}

impl Clone for PresetCollection {
    fn clone(&self) -> (copy: PresetCollection)
        ensures
            copy@ == self@,
    {
        PresetCollection {
            screenshot: clone_presets(&self.screenshot),
            input_field: clone_presets(&self.input_field),
            selection: clone_presets(&self.selection),
        }
    }
}

impl Clone for ActivePresetIds {
    fn clone(&self) -> (copy: ActivePresetIds)
        ensures
            copy@ == self@,
    {
        ActivePresetIds {
            screenshot: clone_text(&self.screenshot),
            input_field: clone_text(&self.input_field),
            selection: clone_text(&self.selection),
        }
    }
}

impl Clone for SettingsState {
    fn clone(&self) -> (copy: SettingsState)
        ensures
            copy@ == self@,
    {
        SettingsState {
            auto_open_on_start: self.auto_open_on_start,
            openai_api_key: self.openai_api_key.clone(),
        }
    }
}

impl Clone for HotkeysState {
    fn clone(&self) -> (copy: HotkeysState)
        ensures
            copy@ == self@,
    {
        HotkeysState { screenshot: self.screenshot.clone() }
    }
}

impl Clone for PersistedState {
    fn clone(&self) -> (copy: PersistedState)
        ensures
            copy@ == self@,
    {
        PersistedState {
            presets: self.presets.clone(),
            next_preset_id: self.next_preset_id,
            active_preset_ids: self.active_preset_ids.clone(),
            settings: match &self.settings {
                Some(s) => Some(s.clone()),
                None => None,
            },
            hotkeys: match &self.hotkeys {
                Some(h) => Some(h.clone()),
                None => None,
            },
        }
    }
}

impl Default for PresetCollection {
    fn default() -> (collection: PresetCollection)
        ensures
            collection@ == PresetCollectionView::empty(),
    {
        let collection = PresetCollection {
            screenshot: Vec::new(),
            input_field: Vec::new(),
            selection: Vec::new(),
        };
        proof {
            assert(preset_views(collection.screenshot@) =~= Seq::empty());
            assert(preset_views(collection.input_field@) =~= Seq::empty());
            assert(preset_views(collection.selection@) =~= Seq::empty());
        }
        collection
    }
}

impl Default for ActivePresetIds {
    fn default() -> (ids: ActivePresetIds)
        ensures
            ids@ == ActivePresetIdsView::none(),
    {
        ActivePresetIds { screenshot: None, input_field: None, selection: None }
    }
}

impl Default for PersistedState {
    fn default() -> (state: PersistedState)
        ensures
            state@ == PersistedStateView::initial(),
    {
        PersistedState {
            presets: PresetCollection::default(),
            next_preset_id: default_next_preset_id(),
            active_preset_ids: ActivePresetIds::default(),
            settings: None,
            hotkeys: None,
        }
    }
}

impl PresetCollection {
    /// The list of one context.
    pub fn list(&self, context: PresetContext) -> (list: &Vec<Preset>)
        ensures
            preset_views(list@) == self@.of(context),
    {
        match context {
            PresetContext::Screenshot => &self.screenshot,
            PresetContext::InputField => &self.input_field,
            PresetContext::Selection => &self.selection,
        }
    }
}

impl ActivePresetIds {
    /// The selection of one context.
    pub fn selected(&self, context: PresetContext) -> (id: &Option<String>)
        ensures
            text_view(*id) == self@.of(context),
    {
        match context {
            PresetContext::Screenshot => &self.screenshot,
            PresetContext::InputField => &self.input_field,
            PresetContext::Selection => &self.selection,
        }
    }
}

impl PersistedState {
    /// The preset in use in `context`, by its index in the context's list:
    /// the first whose id is the selected one. `None` where nothing is
    /// selected or the selected id names no preset of the list.
    pub fn active_preset(&self, context: PresetContext) -> (found: Option<usize>)
        ensures
            match found {
                Some(index) => {
                    &&& self@.active_preset_ids.of(context) matches Some(id)
                    &&& index < self@.presets.of(context).len()
                    &&& self@.presets.of(context)[index as int].id == id
                    &&& forall|j: int| 0 <= j < index ==> (#[trigger] self@.presets.of(context)[j]).id != id
                },
                None => self@.active_preset_ids.of(context) matches Some(id) ==> forall|j: int|
                    0 <= j < self@.presets.of(context).len() ==> (#[trigger] self@.presets.of(
                        context,
                    )[j]).id != id,
            },
    {
        let list: &Vec<Preset> = self.presets.list(context);
        let selected: &Option<String> = self.active_preset_ids.selected(context);
        match selected {
            None => None,
            Some(id) => {
                let mut i: usize = 0;
                while i < list.len()
                    invariant
                        i <= list.len(),
                        self@.active_preset_ids.of(context) == Some(id@),
                        preset_views(list@) == self@.presets.of(context),
                        forall|j: int| 0 <= j < i ==> (#[trigger] list@[j]).id@ != id@,
                    decreases list.len() - i,
                {
                    if list[i].id == *id {
                        proof {
                            assert(preset_views(list@)[i as int] == list@[i as int]@);
                            assert forall|j: int| 0 <= j < i implies (#[trigger] self@.presets.of(
                                context,
                            )[j]).id != id@ by {
                                assert(preset_views(list@)[j] == list@[j]@);
                            }
                        }
                        return Some(i);
                    }
                    i += 1;
                }
                proof {
                    assert forall|j: int| 0 <= j < self@.presets.of(context).len() implies (
                    #[trigger] self@.presets.of(context)[j]).id != id@ by {
                        assert(preset_views(list@)[j] == list@[j]@);
                    }
                }
                None
            },
        }
    }
}

} // verus!
