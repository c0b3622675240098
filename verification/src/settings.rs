//! Named settings of the client, and what writing them leaves in a store.
use vstd::prelude::*;

verus! {

/// A name and the value to store under it.
#[derive(PartialEq, Eq, Debug)]
pub struct Setting {
    pub name: String,
    pub value: String,
}

/// A setting as two texts.
pub struct SettingView {
    pub name: Seq<char>,
    pub value: Seq<char>,
}

impl View for Setting {
    type V = SettingView;

    open spec fn view(&self) -> SettingView {
        SettingView { name: self.name@, value: self.value@ }
    }
}

/// What a store of settings holds.
pub type Store = Map<Seq<char>, Seq<char>>;

/// The value of a setting; a setting that was never stored is empty.
pub open spec fn lookup(store: Store, name: Seq<char>) -> Seq<char> {
    if store.dom().contains(name) {
        store[name]
    } else {
        Seq::empty()
    }
}

pub open spec fn setting(name: Seq<char>, value: Seq<char>) -> SettingView {
    SettingView { name, value }
}

pub open spec fn setting_views(settings: Seq<Setting>) -> Seq<SettingView> {
    settings.map_values(|s: Setting| s@)
}

/// What the store holds once the settings were written, the first one first.
pub open spec fn stored(store: Store, settings: Seq<SettingView>) -> Store
    decreases settings.len(),
{
    if settings.len() == 0 {
        store
    } else {
        stored(store, settings.drop_last()).insert(settings.last().name, settings.last().value)
    }
}

/// A setting with the given name and value.
pub(crate) fn new_setting(name: &str, value: &str) -> (res: Setting)
    ensures
        res@ == setting(name@, value@),
{
    Setting { name: name.to_owned(), value: value.to_owned() }
}

} // verus!
