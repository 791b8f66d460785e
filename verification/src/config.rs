//! The part of the provider's configuration that the library reads.

use vstd::prelude::*;

verus! {

/// Configuration of the storage behind a link.
#[derive(Clone, Debug, PartialEq, Eq)]
pub struct StorageConfig {
    /// Aliases from the general configuration: pairs of a logical container
    /// name and the physical name it stands for. They are taken over as they
    /// are; of two entries of the same name the later one counts.
    pub aliases: Vec<(String, String)>,
    /// Whether the backend is to be reached with the bundled root
    /// certificates in place of those of the platform.
    pub tls_use_webpki_roots: Option<bool>,
}

impl Default for StorageConfig {
    /// A configuration without aliases that leaves the certificates alone.
    fn default() -> (config: Self)
        ensures
            config.aliases@ == Seq::<(String, String)>::empty(),
            config.tls_use_webpki_roots is None,
    {
        StorageConfig { aliases: Vec::new(), tls_use_webpki_roots: None }
    }
}

impl StorageConfig {
    /// Whether the backend is to be reached with the bundled root
    /// certificates: only where the configuration says so outright.
    pub fn uses_webpki_roots(&self) -> (bundled: bool)
        ensures
            bundled == (self.tls_use_webpki_roots == Some(true)),
    {
        match self.tls_use_webpki_roots {
            Some(bundled) => bundled,
            None => false,
        }
    }
}

} // verus!
