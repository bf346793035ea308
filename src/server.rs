//! The proxy's state: the catalog and the context store, owned together.
use crate::contexts::SimpleAppContextServer;
use crate::filter::StaticApplicationListServer;
use vstd::prelude::*;

verus! {

/// The life-cycle management proxy: a catalog and a context store.
pub struct LcmpServer {
    pub application_list_server: StaticApplicationListServer,
    pub app_context_server: SimpleAppContextServer,
}

impl LcmpServer {
    /// A proxy over a catalog and a context store.
    pub fn build(
        application_list_server: StaticApplicationListServer,
        app_context_server: SimpleAppContextServer,
    ) -> (r: LcmpServer)
        ensures
            r.application_list_server == application_list_server,
            r.app_context_server == app_context_server,
    {
        LcmpServer { application_list_server, app_context_server }
    }

    /// The catalog.
    pub fn application_list(&self) -> (r: &StaticApplicationListServer)
        ensures
            *r == self.application_list_server,
    {
        &self.application_list_server
    }

    /// The context store.
    pub fn app_context(&self) -> (r: &SimpleAppContextServer)
        ensures
            *r == self.app_context_server,
    {
        &self.app_context_server
    }
}

} // verus!
