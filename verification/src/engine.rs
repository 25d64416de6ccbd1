//! The persistence backend's operations, one per command.
//!
//! `Engine` is the stored state: the three document categories and the
//! singleton configuration document. Each operation holds one command's
//! decision logic; the surrounding binary resolves the real directories
//! and mirrors every step onto disk, surfacing its own input/output
//! failures where the disk disagrees.

use crate::config::config_text;
use crate::config::get_default_config;
use crate::store::json_names;
use crate::store::lookup;
use crate::store::store_delete;
use crate::store::store_save;
use crate::store::CategoryStore;
use vstd::prelude::*;

verus! {

/// The error reported when a named document is not stored.
pub open spec fn not_found_message(filename: Seq<char>) -> Seq<char> {
    "文件不存在: "@ + filename
}

/// A fixed confirmation or error prefix followed by the file name.
fn tag_message(prefix: &str, filename: &str) -> (r: String)
    ensures
        r@ == prefix@ + filename@,
{
    let mut r = prefix.to_owned();
    r.append(filename);
    r
}

/// The stored state of the persistence backend.
pub struct Engine {
    saves: CategoryStore,
    worldlines: CategoryStore,
    lorebooks: CategoryStore,
    config: Option<String>,
}

impl Engine {
    /// The game-save category's documents.
    pub closed spec fn saves_view(&self) -> Seq<(Seq<char>, Seq<char>)> {
        self.saves@
    }

    /// The worldline category's documents.
    pub closed spec fn worldlines_view(&self) -> Seq<(Seq<char>, Seq<char>)> {
        self.worldlines@
    }

    /// The lorebook category's documents.
    pub closed spec fn lorebooks_view(&self) -> Seq<(Seq<char>, Seq<char>)> {
        self.lorebooks@
    }

    /// The stored configuration text, when one was ever saved.
    pub closed spec fn config_view(&self) -> Option<Seq<char>> {
        match self.config {
            Some(c) => Some(c@),
            None => None,
        }
    }

    /// Every category keeps each file name at most once.
    pub closed spec fn wf(&self) -> bool {
        self.saves.wf() && self.worldlines.wf() && self.lorebooks.wf()
    }

    /// A well-formed backend keeps each file name at most once in every
    /// category.
    pub proof fn lemma_wf_categories_unique(&self)
        requires
            self.wf(),
        ensures
            crate::store::unique_names(self.saves_view()),
            crate::store::unique_names(self.worldlines_view()),
            crate::store::unique_names(self.lorebooks_view()),
    {
    }

    /// A fresh backend: no documents, no stored configuration.
    pub fn new() -> (r: Engine)
        ensures
            r.wf(),
            r.saves_view() == Seq::<(Seq<char>, Seq<char>)>::empty(),
            r.worldlines_view() == Seq::<(Seq<char>, Seq<char>)>::empty(),
            r.lorebooks_view() == Seq::<(Seq<char>, Seq<char>)>::empty(),
            r.config_view() is None,
    {
        Engine {
            saves: CategoryStore::new(),
            worldlines: CategoryStore::new(),
            lorebooks: CategoryStore::new(),
            config: None,
        }
    }

    /// Stores a game save, overwriting any document of the same name,
    /// and confirms with a message embedding the name.
    pub fn save_game(&mut self, filename: &str, data: &str) -> (r: String)
        requires
            old(self).wf(),
        ensures
            final(self).wf(),
            final(self).saves_view() == store_save(old(self).saves_view(), filename@, data@),
            final(self).worldlines_view() == old(self).worldlines_view(),
            final(self).lorebooks_view() == old(self).lorebooks_view(),
            final(self).config_view() == old(self).config_view(),
            r@ == "存档已保存: "@ + filename@,
    {
        self.saves.save(filename, data);
        tag_message("存档已保存: ", filename)
    }

    /// The stored game save, or the not-found error when there is none.
    pub fn load_game(&self, filename: &str) -> (r: Result<String, String>)
        ensures
            match r {
                Ok(c) => lookup(self.saves_view(), filename@) == Some(c@),
                Err(e) => lookup(self.saves_view(), filename@) is None && e@ == not_found_message(
                    filename@,
                ),
            },
    {
        match self.saves.load(filename) {
            Some(c) => Ok(c),
            None => Err(tag_message("文件不存在: ", filename)),
        }
    }

    /// The stored game-save names that carry the `json` extension.
    pub fn list_saves(&self) -> (r: Vec<String>)
        ensures
            r.deep_view() == json_names(self.saves_view()),
    {
        self.saves.list()
    }

    /// Removes a game save; removing a missing one is the not-found
    /// error.
    pub fn delete_save(&mut self, filename: &str) -> (r: Result<String, String>)
        requires
            old(self).wf(),
        ensures
            final(self).wf(),
            final(self).saves_view() == store_delete(old(self).saves_view(), filename@),
            final(self).worldlines_view() == old(self).worldlines_view(),
            final(self).lorebooks_view() == old(self).lorebooks_view(),
            final(self).config_view() == old(self).config_view(),
            match r {
                Ok(m) => lookup(old(self).saves_view(), filename@) is Some && m@ == "存档已删除: "@
                    + filename@,
                Err(e) => lookup(old(self).saves_view(), filename@) is None && e@
                    == not_found_message(filename@),
            },
    {
        if self.saves.delete(filename) {
            Ok(tag_message("存档已删除: ", filename))
        } else {
            Err(tag_message("文件不存在: ", filename))
        }
    }

    /// Stores the configuration text verbatim.
    pub fn save_config(&mut self, config: &str)
        requires
            old(self).wf(),
        ensures
            final(self).wf(),
            final(self).config_view() == Some(config@),
            final(self).saves_view() == old(self).saves_view(),
            final(self).worldlines_view() == old(self).worldlines_view(),
            final(self).lorebooks_view() == old(self).lorebooks_view(),
    {
        self.config = Some(config.to_owned());
    }

    /// The stored configuration text, or the compiled-in default when
    /// none was ever stored; loading never fails on absence.
    pub fn load_config(&self) -> (r: String)
        ensures
            r@ == config_text(self.config_view()),
    {
        match &self.config {
            Some(c) => c.clone(),
            None => get_default_config(),
        }
    }

    /// Stores a worldline document and confirms with a message
    /// embedding the name.
    pub fn save_worldline(&mut self, filename: &str, data: &str) -> (r: String)
        requires
            old(self).wf(),
        ensures
            final(self).wf(),
            final(self).worldlines_view() == store_save(
                old(self).worldlines_view(),
                filename@,
                data@,
            ),
            final(self).saves_view() == old(self).saves_view(),
            final(self).lorebooks_view() == old(self).lorebooks_view(),
            final(self).config_view() == old(self).config_view(),
            r@ == "世界线已保存: "@ + filename@,
    {
        self.worldlines.save(filename, data);
        tag_message("世界线已保存: ", filename)
    }

    /// The stored worldline, or the not-found error when there is none.
    pub fn load_worldline(&self, filename: &str) -> (r: Result<String, String>)
        ensures
            match r {
                Ok(c) => lookup(self.worldlines_view(), filename@) == Some(c@),
                Err(e) => lookup(self.worldlines_view(), filename@) is None && e@
                    == not_found_message(filename@),
            },
    {
        match self.worldlines.load(filename) {
            Some(c) => Ok(c),
            None => Err(tag_message("文件不存在: ", filename)),
        }
    }

    /// The stored worldline names that carry the `json` extension.
    pub fn list_worldlines(&self) -> (r: Vec<String>)
        ensures
            r.deep_view() == json_names(self.worldlines_view()),
    {
        self.worldlines.list()
    }

    /// Removes a worldline; removing a missing one is the not-found
    /// error.
    pub fn delete_worldline(&mut self, filename: &str) -> (r: Result<String, String>)
        requires
            old(self).wf(),
        ensures
            final(self).wf(),
            final(self).worldlines_view() == store_delete(old(self).worldlines_view(), filename@),
            final(self).saves_view() == old(self).saves_view(),
            final(self).lorebooks_view() == old(self).lorebooks_view(),
            final(self).config_view() == old(self).config_view(),
            match r {
                Ok(m) => lookup(old(self).worldlines_view(), filename@) is Some && m@
                    == "世界线已删除: "@ + filename@,
                Err(e) => lookup(old(self).worldlines_view(), filename@) is None && e@
                    == not_found_message(filename@),
            },
    {
        if self.worldlines.delete(filename) {
            Ok(tag_message("世界线已删除: ", filename))
        } else {
            Err(tag_message("文件不存在: ", filename))
        }
    }

    /// Exporting a worldline is loading it: no transformation, no
    /// validation.
    pub fn export_worldline(&self, filename: &str) -> (r: Result<String, String>)
        ensures
            match r {
                Ok(c) => lookup(self.worldlines_view(), filename@) == Some(c@),
                Err(e) => lookup(self.worldlines_view(), filename@) is None && e@
                    == not_found_message(filename@),
            },
    {
        self.load_worldline(filename)
    }

    /// Importing a worldline is saving it: no transformation, no
    /// validation.
    pub fn import_worldline(&mut self, filename: &str, data: &str) -> (r: String)
        requires
            old(self).wf(),
        ensures
            final(self).wf(),
            final(self).worldlines_view() == store_save(
                old(self).worldlines_view(),
                filename@,
                data@,
            ),
            final(self).saves_view() == old(self).saves_view(),
            final(self).lorebooks_view() == old(self).lorebooks_view(),
            final(self).config_view() == old(self).config_view(),
            r@ == "世界线已保存: "@ + filename@,
    {
        self.save_worldline(filename, data)
    }

    /// Stores a lorebook document and confirms with a message embedding
    /// the name.
    pub fn save_lorebook(&mut self, filename: &str, data: &str) -> (r: String)
        requires
            old(self).wf(),
        ensures
            final(self).wf(),
            final(self).lorebooks_view() == store_save(
                old(self).lorebooks_view(),
                filename@,
                data@,
            ),
            final(self).saves_view() == old(self).saves_view(),
            final(self).worldlines_view() == old(self).worldlines_view(),
            final(self).config_view() == old(self).config_view(),
            r@ == "Lorebook 已保存: "@ + filename@,
    {
        self.lorebooks.save(filename, data);
        tag_message("Lorebook 已保存: ", filename)
    }

    /// The stored lorebook, or the not-found error when there is none.
    pub fn load_lorebook(&self, filename: &str) -> (r: Result<String, String>)
        ensures
            match r {
                Ok(c) => lookup(self.lorebooks_view(), filename@) == Some(c@),
                Err(e) => lookup(self.lorebooks_view(), filename@) is None && e@
                    == not_found_message(filename@),
            },
    {
        match self.lorebooks.load(filename) {
            Some(c) => Ok(c),
            None => Err(tag_message("文件不存在: ", filename)),
        }
    }

    /// The stored lorebook names that carry the `json` extension.
    pub fn list_lorebooks(&self) -> (r: Vec<String>)
        ensures
            r.deep_view() == json_names(self.lorebooks_view()),
    {
        self.lorebooks.list()
    }

    /// Removes a lorebook; removing a missing one is the not-found
    /// error.
    pub fn delete_lorebook(&mut self, filename: &str) -> (r: Result<String, String>)
        requires
            old(self).wf(),
        ensures
            final(self).wf(),
            final(self).lorebooks_view() == store_delete(old(self).lorebooks_view(), filename@),
            final(self).saves_view() == old(self).saves_view(),
            final(self).worldlines_view() == old(self).worldlines_view(),
            final(self).config_view() == old(self).config_view(),
            match r {
                Ok(m) => lookup(old(self).lorebooks_view(), filename@) is Some && m@
                    == "Lorebook 已删除: "@ + filename@,
                Err(e) => lookup(old(self).lorebooks_view(), filename@) is None && e@
                    == not_found_message(filename@),
            },
    {
        if self.lorebooks.delete(filename) {
            Ok(tag_message("Lorebook 已删除: ", filename))
        } else {
            Err(tag_message("文件不存在: ", filename))
        }
    }
}

} // verus!
