//! The builder of the files database handle: it is configured, then
//! sealed, then built.
use vstd::prelude::*;

use crate::configuration::MyFilesConfiguration;

pub mod my_files;
pub mod records;

verus! {

/// The builder can be built.
pub struct Sealed;

/// The builder can still be changed.
pub struct NotSealed;

/// No configuration given yet.
pub struct NoConfiguration;

/// The configuration given.
pub struct ConfigurationPresent(pub MyFilesConfiguration);

/// No connection manager yet.
pub struct NoConnectionManager;

/// A builder in the state `C` (configuration), `M` (connection manager),
/// `S` (sealed or not).
pub struct MyFilesBuilder<C, M, S> {
    pub connection_manager: M,
    pub configuration_instance: C,
    pub marker_seal: core::marker::PhantomData<S>,
}

impl MyFilesBuilder<NoConfiguration, NoConnectionManager, NotSealed> {
    /// A builder with nothing given.
    pub fn new() -> (res: MyFilesBuilder<NoConfiguration, NoConnectionManager, NotSealed>) {
        MyFilesBuilder {
            connection_manager: NoConnectionManager,
            configuration_instance: NoConfiguration,
            marker_seal: core::marker::PhantomData,
        }
    }
}

impl<C, M> MyFilesBuilder<C, M, NotSealed> {
    /// The builder with the configuration and the connection manager made
    /// for it.
    pub fn configured<M2>(self, configuration_instance: MyFilesConfiguration, manager: M2) -> (res:
        MyFilesBuilder<ConfigurationPresent, M2, NotSealed>)
        ensures
            res.configuration_instance.0 == configuration_instance,
            res.connection_manager == manager,
    {
        MyFilesBuilder {
            connection_manager: manager,
            configuration_instance: ConfigurationPresent(configuration_instance),
            marker_seal: core::marker::PhantomData,
        }
    }

    /// The same builder, sealed.
    pub fn seal(self) -> (res: MyFilesBuilder<C, M, Sealed>)
        ensures
            res.connection_manager == self.connection_manager,
            res.configuration_instance == self.configuration_instance,
    {
        MyFilesBuilder {
            connection_manager: self.connection_manager,
            configuration_instance: self.configuration_instance,
            marker_seal: core::marker::PhantomData,
        }
    }
}

} // verus!
