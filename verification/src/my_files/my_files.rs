//! The builder of the files database handle that is configured from a
//! configuration source.
use vstd::prelude::*;

use crate::configuration_wrapper::ConfigurationWrapper;

verus! {

/// The builder can be built.
pub struct Sealed;

/// The builder can still be changed.
pub struct NotSealed;

/// No configuration source given yet.
pub struct NoConfigurationWrapper;

/// No connection manager yet.
pub struct NoConnectionManager;

/// The configuration source given.
pub struct ConfigurationWrapperPresent(pub ConfigurationWrapper);

/// Where the database is and whether it is emptied on start.
pub struct MyFilesDatabaseConfiguration {
    pub db_path: String,
    pub drop_db_on_start: bool,
}

impl MyFilesDatabaseConfiguration {
    /// No path, and the database is kept.
    pub fn default() -> (res: MyFilesDatabaseConfiguration)
        ensures
            res.db_path@ == Seq::<char>::empty(),
            !res.drop_db_on_start,
    {
        MyFilesDatabaseConfiguration { db_path: String::new(), drop_db_on_start: false }
    }
}

/// A builder in the state `C` (configuration source), `M` (connection
/// manager), `S` (sealed or not).
pub struct MyFilesBuilder<C, M, S> {
    pub connection_manager: M,
    pub configuration_wrapper_instance: C,
    pub marker_seal: core::marker::PhantomData<S>,
}

impl MyFilesBuilder<NoConfigurationWrapper, NoConnectionManager, NotSealed> {
    /// A builder with nothing given.
    pub fn new() -> (res: MyFilesBuilder<NoConfigurationWrapper, NoConnectionManager, NotSealed>) {
        MyFilesBuilder {
            connection_manager: NoConnectionManager,
            configuration_wrapper_instance: NoConfigurationWrapper,
            marker_seal: core::marker::PhantomData,
        }
    }
}

impl<C, M> MyFilesBuilder<C, M, NotSealed> {
    /// The builder with the configuration source and the connection manager
    /// made from it.
    pub fn configured<M2>(self, configuration_wrapper_instance: ConfigurationWrapper, manager: M2) -> (res:
        MyFilesBuilder<ConfigurationWrapperPresent, M2, NotSealed>)
        ensures
            res.configuration_wrapper_instance.0 == configuration_wrapper_instance,
            res.connection_manager == manager,
    {
        MyFilesBuilder {
            connection_manager: manager,
            configuration_wrapper_instance: ConfigurationWrapperPresent(configuration_wrapper_instance),
            marker_seal: core::marker::PhantomData,
        }
    }

    /// The same builder, sealed.
    pub fn seal(self) -> (res: MyFilesBuilder<C, M, Sealed>)
        ensures
            res.connection_manager == self.connection_manager,
            res.configuration_wrapper_instance == self.configuration_wrapper_instance,
    {
        MyFilesBuilder {
            connection_manager: self.connection_manager,
            configuration_wrapper_instance: self.configuration_wrapper_instance,
            marker_seal: core::marker::PhantomData,
        }
    }
}

} // verus!
