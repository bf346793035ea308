//! Identifiers drawn at random for contexts, application instances and
//! device applications.
use crate::messages::{
    AppContext, AppContextModel, AppInfoContext, AppInfoContextModel, UserAppInstanceInfo,
};
use vstd::prelude::*;

verus! {

/// A lowercase hexadecimal digit.
pub open spec fn is_lower_hex(c: char) -> bool {
    ('0' <= c && c <= '9') || ('a' <= c && c <= 'f')
}

/// The shape of a drawn identifier: 32 lowercase hexadecimal digits.
pub open spec fn is_simple_uuid(s: Seq<char>) -> bool {
    s.len() == 32 && forall|i: int| 0 <= i < 32 ==> #[trigger] is_lower_hex(s[i])
}

/// Relies on `uuid::Uuid::new_v4` and its `simple` formatter: a random
/// version-4 UUID written as 32 lowercase hexadecimal digits, no hyphens.
#[verifier::external_body]
pub(crate) fn random_id() -> (r: String)
    ensures
        is_simple_uuid(r@),
{
    uuid::Uuid::new_v4().simple().to_string()
}

impl UserAppInstanceInfo {
    /// A new application instance reached at `reference_uri`, with a newly
    /// drawn identifier and no location.
    pub fn from_reference_uri(reference_uri: &str) -> (r: Self)
        ensures
            r@.appInstanceId matches Some(id) && is_simple_uuid(id),
            r@.referenceURI == Some(reference_uri@),
            r@.appLocation is None,
    {
        UserAppInstanceInfo {
            appInstanceId: Some(random_id()),
            referenceURI: Some(reference_uri.to_string()),
            appLocation: None,
        }
    }
}

impl AppContext {
    /// A creation request for the application `name` of `provider`, on behalf
    /// of a device application with a newly drawn identifier.
    pub fn request_from_name_provider(name: &str, provider: &str) -> (r: Self)
        ensures
            is_simple_uuid(r@.associateDevAppId),
            r@ == (AppContextModel {
                contextId: None,
                associateDevAppId: r@.associateDevAppId,
                callbackReference: None,
                appLocationUpdates: None,
                appAutoInstantiation: None,
                appInfo: AppInfoContextModel {
                    appDId: None,
                    appName: name@,
                    appProvider: provider@,
                    appSoftVersion: None,
                    appDVersion: Seq::empty(),
                    appDescription: None,
                    userAppInstanceInfo: Seq::empty(),
                    appPackageSource: None,
                },
            }),
    {
        let r = AppContext {
            contextId: None,
            associateDevAppId: random_id(),
            callbackReference: None,
            appLocationUpdates: None,
            appAutoInstantiation: None,
            appInfo: AppInfoContext {
                appDId: None,
                appName: name.to_string(),
                appProvider: provider.to_string(),
                appSoftVersion: None,
                appDVersion: String::new(),
                appDescription: None,
                userAppInstanceInfo: Vec::new(),
                appPackageSource: None,
            },
        };
        assert(r@.appInfo.userAppInstanceInfo =~= Seq::<
            crate::messages::UserAppInstanceInfoModel,
        >::empty());
        r
    }
}

} // verus!
