use vstd::prelude::*;
use crate::resource::RegistryResource;

verus! {

/// A source of package metadata and archives: a remote registry, a local
/// one, or a caching layer over either.
///
/// `before_network` is called right before the client sends anything over
/// the network, and a failure from it is returned at once; a client that
/// needs no network never calls it. `create_scratch_file` is called only when
/// a fresh archive has to be written.
pub trait RegistryClient: Send + Sync {
    /// Failure of a fetch: transport, parsing or I/O.
    type Error;
    /// An exclusive handle to a written archive file.
    type Archive;
    /// A packaged package offered for publishing.
    type Package;

    /// Whether packages can be published to this registry.
    spec fn publish_supported(&self) -> bool;

    /// The index records of the package named `package`, as bytes.
    fn get_records<F>(&self, package: &String, cache_key: Option<&String>, before_network: F) -> (r: Result<
        RegistryResource<Vec<u8>>,
        Self::Error,
    >) where F: FnOnce() -> Result<(), Self::Error>
        requires
            before_network.requires(()),
        ensures
            r matches Ok(RegistryResource::InCache) ==> (cache_key matches Some(k) && k@.len() > 0),
    ;

    /// Downloads the archive of `package` into a scratch file.
    fn download<F, S>(
        &self,
        package: &String,
        cache_key: Option<&String>,
        before_network: F,
        create_scratch_file: S,
    ) -> (r: Result<RegistryResource<Self::Archive>, Self::Error>) where
        F: FnOnce() -> Result<(), Self::Error>,
        S: FnOnce() -> Result<Self::Archive, Self::Error>,
        requires
            before_network.requires(()),
            create_scratch_file.requires(()),
        ensures
            r matches Ok(RegistryResource::InCache) ==> (cache_key matches Some(k) && k@.len() > 0),
    ;

    /// States whether packages can be published to this registry; may look
    /// the registry's configuration up over the network.
    ///
    /// By default a registry does not support publishing.
    fn supports_publish(&self) -> (r: Result<bool, Self::Error>)
        ensures
            r matches Ok(true) ==> self.publish_supported(),
        default_ensures
            r matches Ok(false),
    {
        Ok(false)
    }

    /// Publishes `package`, packaged as `tarball`. Only a registry that
    /// supports publishing can be asked to.
    fn publish(&self, package: Self::Package, tarball: Self::Archive) -> (r: Result<(), Self::Error>)
        requires
            self.publish_supported(),
    ;
}

} // verus!
