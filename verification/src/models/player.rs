//! Players as the name service knows them.

use vstd::prelude::*;

verus! {

/// The name and tag line of one player.
#[derive(Debug, Clone)]
pub struct NameEntry {
    pub puuid: String,
    pub name: String,
    pub tag: String,
}

/// The mathematical value of a `NameEntry`.
pub struct NameEntryView {
    pub puuid: Seq<char>,
    pub name: Seq<char>,
    pub tag: Seq<char>,
}

impl View for NameEntry {
    type V = NameEntryView;

    open spec fn view(&self) -> NameEntryView {
        NameEntryView { puuid: self.puuid@, name: self.name@, tag: self.tag@ }
    }
}

} // verus!
