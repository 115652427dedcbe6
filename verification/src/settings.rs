//! The application's configuration carrier: where the note vault lives
//! and which optional features are switched on.

use vstd::prelude::*;

verus! {

/// Settings of the note-taking application: the vault location and the
/// feature switches for wiki links and the graph view.
#[derive(Debug)]
pub struct ObsidianSettings {
    pub vault_path: String,
    pub enable_wiki_links: bool,
    pub enable_graph_view: bool,
}

impl ObsidianSettings {
    /// Settings with the given vault location and feature switches.
    pub fn new(vault_path: String, enable_wiki_links: bool, enable_graph_view: bool) -> (r: Self)
        ensures
            r.vault_path == vault_path,
            r.enable_wiki_links == enable_wiki_links,
            r.enable_graph_view == enable_graph_view,
    {
        ObsidianSettings { vault_path, enable_wiki_links, enable_graph_view }
    }
}

impl Default for ObsidianSettings {
    /// An empty vault location with every feature switched off.
    fn default() -> (r: Self)
        ensures
            r.vault_path@ == Seq::<char>::empty(),
            !r.enable_wiki_links,
            !r.enable_graph_view,
    {
        ObsidianSettings {
            vault_path: String::new(),
            enable_wiki_links: false,
            enable_graph_view: false,
        }
    }
}

} // verus!
