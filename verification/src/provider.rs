//! The provider: the registry of links and the handlers of the operations.

use crate::alias::pairs;
use crate::client::{link_aliases, StorageClient};
use crate::config::StorageConfig;
use crate::error::StorageError;
use crate::operation::{link_of, Links};
use vstd::hash_map::StringHashMap;
use vstd::prelude::*;
use vstd::string::StringExecFns;

verus! {

/// Blobstore provider backed by an S3-compatible object store. It holds the
/// link of each caller, by the caller's source id: at most one per id.
pub struct BlobstoreS3Provider {
    actors: StringHashMap<StorageClient>,
}

impl View for BlobstoreS3Provider {
    type V = Links;

    /// For each caller that has a link, the alias table of the link.
    closed spec fn view(&self) -> Links {
        Map::new(
            |id: Seq<char>| self.actors@.contains_key(id),
            |id: Seq<char>| self.actors@[id]@,
        )
    }
}

/// Why a link was not taken up.
#[derive(Clone, Debug, PartialEq, Eq)]
pub struct LinkError {
    /// Why the link's configuration could not be used.
    pub message: String,
}

impl Default for BlobstoreS3Provider {
    /// A provider without links.
    fn default() -> (provider: Self)
        ensures
            provider@ == Map::<Seq<char>, Map<Seq<char>, Seq<char>>>::empty(),
    {
        let provider = BlobstoreS3Provider { actors: StringHashMap::new() };
        assert(provider@ =~= Map::<Seq<char>, Map<Seq<char>, Seq<char>>>::empty());
        provider
    }
}

impl BlobstoreS3Provider {
    /// The client of the link of the caller `source_id`. Fails where the
    /// invocation names no caller and where the caller has no link.
    pub fn client(&self, source_id: Option<&str>) -> (result: Result<&StorageClient, StorageError>)
        ensures
            match link_of(self@, source_id.deep_view()) {
                Ok(aliases) => result is Ok && result->Ok_0@ == aliases,
                Err(failure) => result is Err && result->Err_0@ == failure,
            },
    {
        match source_id {
            Some(id) => match self.actors.get(id) {
                Some(client) => Ok(client),
                None => Err(StorageError::UnknownLink { source_id: Some(String::from_str(id)) }),
            },
            None => Err(StorageError::UnknownLink { source_id: None }),
        }
    }

    /// Takes up a link with this provider as its target. `config` is what
    /// the link's configuration values were read as, or why they could not be
    /// read. With a configuration the link of `source_id` is made, in place
    /// of any that the caller had before; without one the link is turned down
    /// and the links are as they were.
    pub fn receive_link_config_as_target(
        &mut self,
        source_id: &str,
        config: Result<StorageConfig, String>,
        config_values: &Vec<(String, String)>,
    ) -> (result: Result<(), LinkError>)
        ensures
            match config {
                Ok(config) => result is Ok && final(self)@ == old(self)@.insert(
                    source_id@,
                    link_aliases(pairs(config.aliases@), pairs(config_values@)),
                ),
                Err(message) => {
                    &&& result is Err
                    &&& result->Err_0.message@ == message@
                    &&& final(self)@ == old(self)@
                },
            },
    {
        match config {
            Ok(config) => {
                let link = StorageClient::new(config, config_values);
                let ghost before = self@;
                let ghost aliases = link@;
                self.actors.insert(String::from_str(source_id), link);
                assert(self@ =~= before.insert(source_id@, aliases));
                Ok(())
            },
            Err(message) => Err(LinkError { message }),
        }
    }

    /// Drops the link of `source_id`, if there is one.
    pub fn delete_link(&mut self, source_id: &str)
        ensures
            final(self)@ == old(self)@.remove(source_id@),
    {
        let ghost before = self@;
        self.actors.remove(source_id);
        assert(self@ =~= before.remove(source_id@));
    }

    /// Drops all links.
    pub fn shutdown(&mut self)
        ensures
            final(self)@ == Map::<Seq<char>, Map<Seq<char>, Seq<char>>>::empty(),
    {
        self.actors.clear();
        assert(self@ =~= Map::<Seq<char>, Map<Seq<char>, Seq<char>>>::empty());
    }

    /// Whether `source_id` has a link.
    pub fn has_link(&self, source_id: &str) -> (linked: bool)
        ensures
            linked == self@.contains_key(source_id@),
    {
        self.actors.contains_key(source_id)
    }
}

} // verus!
