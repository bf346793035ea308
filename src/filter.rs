//! The application-list filter engine: multi-criteria queries over a static
//! catalog of application descriptors.
use crate::error::LcmpError;
use crate::messages::{
    AppList, AppListModel, ApplicationList, ApplicationListInfo, ApplicationListInfoModel,
    VendorSpecificExt,
};
use crate::text::{char_count, split_at_commas, split_commas};
use crate::validate::{reason_if, service_cont_ok, service_cont_valid, Validate, MAX_NAME_LEN};
use vstd::prelude::*;

verus! {

/// The values that a criterion accepts: none when it is absent, otherwise
/// the comma-separated pieces of its text.
pub open spec fn accepted(v: Option<Seq<char>>) -> Seq<Seq<char>> {
    match v {
        Some(s) => split_commas(s),
        None => Seq::empty(),
    }
}

/// A value passes a criterion that accepts no value (a wildcard) or one that
/// accepts it.
pub open spec fn passes(values: Seq<Seq<char>>, value: Seq<char>) -> bool {
    values.len() == 0 || values.contains(value)
}

/// The vendor identifier of an entry; empty when it has no extension.
pub open spec fn vendor_id_of(e: AppListModel) -> Seq<char> {
    match e.vendorId {
        Some(v) => v,
        None => Seq::empty(),
    }
}

/// Whether a catalog entry meets every criterion of a query.
pub open spec fn entry_matches(q: ApplicationListInfoModel, e: AppListModel) -> bool {
    &&& passes(accepted(q.appName), e.appInfo.appName)
    &&& passes(accepted(q.appProvider), e.appInfo.appProvider)
    &&& passes(accepted(q.appSoftVersion), e.appInfo.appSoftVersion)
    &&& (q.serviceCont is Some ==> (e.appInfo.appCharcs matches Some(c) && c.serviceCont
        == q.serviceCont))
    &&& passes(accepted(q.vendorId), vendor_id_of(e))
}

/// The entries of a catalog that meet a query, in catalog order.
pub open spec fn matching(catalog: Seq<AppListModel>, q: ApplicationListInfoModel) -> Seq<
    AppListModel,
> {
    catalog.filter(|e: AppListModel| entry_matches(q, e))
}

/// Every value that a query accepts is at most 32 characters long, and its
/// service continuity is valid.
pub open spec fn query_ok(q: ApplicationListInfoModel) -> bool {
    &&& forall|i: int|
        0 <= i < accepted(q.appName).len() ==> #[trigger] accepted(q.appName)[i].len() <= 32
    &&& forall|i: int|
        0 <= i < accepted(q.appProvider).len() ==> #[trigger] accepted(q.appProvider)[i].len()
            <= 32
    &&& forall|i: int|
        0 <= i < accepted(q.appSoftVersion).len() ==> #[trigger] accepted(
            q.appSoftVersion,
        )[i].len() <= 32
    &&& service_cont_ok(q.serviceCont)
    &&& forall|i: int|
        0 <= i < accepted(q.vendorId).len() ==> #[trigger] accepted(q.vendorId)[i].len() <= 32
}

/// Whether `value` is one of `values`.
fn contains_text(values: &Vec<String>, value: &String) -> (r: bool)
    ensures
        r == values.deep_view().contains(value@),
{
    let mut i: usize = 0;
    while i < values.len()
        invariant
            i <= values@.len(),
            forall|j: int| 0 <= j < i ==> values.deep_view()[j] != value@,
        decreases values@.len() - i,
    {
        if values[i].eq(value) {
            assert(values.deep_view()[i as int] == value@);
            return true;
        }
        i = i + 1;
    }
    false
}

/// Whether `value` passes a criterion that accepts `values`.
fn passes_text(values: &Vec<String>, value: &String) -> (r: bool)
    ensures
        r == passes(values.deep_view(), value@),
{
    values.len() == 0 || contains_text(values, value)
}

/// Whether every value is at most 32 characters long.
fn all_short(values: &Vec<String>) -> (r: bool)
    ensures
        r == forall|i: int| 0 <= i < values.deep_view().len() ==> #[trigger] values.deep_view()[i].len() <= 32,
{
    let mut i: usize = 0;
    while i < values.len()
        invariant
            i <= values@.len(),
            forall|j: int| 0 <= j < i ==> #[trigger] values.deep_view()[j].len() <= 32,
        decreases values@.len() - i,
    {
        if char_count(&values[i]) > MAX_NAME_LEN {
            assert(values.deep_view()[i as int].len() > 32);
            return false;
        }
        i = i + 1;
    }
    true
}

impl VendorSpecificExt {
    /// A vendor extension with an empty identifier.
    pub fn empty() -> (r: Self)
        ensures
            r@ == Seq::<char>::empty(),
    {
        VendorSpecificExt { vendorId: String::new() }
    }
}

impl ApplicationListInfo {
    /// A query with no criterion: it matches every entry.
    pub fn empty() -> (r: Self)
        ensures
            r@ == (ApplicationListInfoModel {
                appName: None,
                appProvider: None,
                appSoftVersion: None,
                serviceCont: None,
                vendorId: None,
            }),
    {
        ApplicationListInfo {
            appName: None,
            appProvider: None,
            appSoftVersion: None,
            serviceCont: None,
            vendorId: None,
        }
    }

    /// The values accepted by an optional comma-separated criterion.
    pub fn value_list(v: &Option<String>) -> (r: Vec<String>)
        ensures
            r.deep_view() == accepted(v.deep_view()),
    {
        match v {
            Some(x) => split_at_commas(x.as_str()),
            None => {
                let r: Vec<String> = Vec::new();
                assert(r.deep_view() =~= Seq::<Seq<char>>::empty());
                r
            },
        }
    }

    /// The accepted application names, if any.
    pub fn app_names(&self) -> (r: Vec<String>)
        ensures
            r.deep_view() == accepted(self@.appName),
    {
        Self::value_list(&self.appName)
    }

    /// The accepted application providers, if any.
    pub fn app_providers(&self) -> (r: Vec<String>)
        ensures
            r.deep_view() == accepted(self@.appProvider),
    {
        Self::value_list(&self.appProvider)
    }

    /// The accepted software versions, if any.
    pub fn app_soft_versions(&self) -> (r: Vec<String>)
        ensures
            r.deep_view() == accepted(self@.appSoftVersion),
    {
        Self::value_list(&self.appSoftVersion)
    }

    /// The accepted vendor identifiers, if any.
    pub fn vendor_ids(&self) -> (r: Vec<String>)
        ensures
            r.deep_view() == accepted(self@.vendorId),
    {
        Self::value_list(&self.vendorId)
    }
}

impl Validate for ApplicationListInfo {
    open spec fn reasons(&self) -> Seq<Seq<char>> {
        reason_if(!query_ok(self@), "invalid query"@)
    }

    fn validate(&self) -> (r: Result<(), String>) {
        let mut valid = all_short(&self.app_names());
        valid = valid && all_short(&self.app_providers());
        valid = valid && all_short(&self.app_soft_versions());
        valid = valid && service_cont_valid(self.serviceCont);
        valid = valid && all_short(&self.vendor_ids());
        if valid {
            Ok(())
        } else {
            Err("invalid query".to_string())
        }
    }
}

impl ApplicationList {
    /// A catalog with no entry.
    pub fn empty() -> (r: Self)
        ensures
            r@ == Seq::<AppListModel>::empty(),
    {
        let r = ApplicationList { appList: Vec::new() };
        assert(r@ =~= Seq::<AppListModel>::empty());
        r
    }

    /// The entries that meet every criterion of `info`, in catalog order.
    pub fn matching_info(&self, info: &ApplicationListInfo) -> (r: Vec<AppList>)
        ensures
            r.deep_view() == matching(self@, info@),
    {
        let mut ret: Vec<AppList> = Vec::new();
        let app_names = info.app_names();
        let app_providers = info.app_providers();
        let app_soft_versions = info.app_soft_versions();
        let vendor_ids = info.vendor_ids();
        let no_vendor = VendorSpecificExt::empty();
        let ghost pred = |e: AppListModel| entry_matches(info@, e);
        let apps = &self.appList;
        let mut i: usize = 0;
        assert(self@.take(0).filter(pred) =~= Seq::<AppListModel>::empty()) by {
            reveal(Seq::filter);
        }
        assert(ret.deep_view() =~= Seq::<AppListModel>::empty());
        while i < apps.len()
            invariant
                i <= apps@.len(),
                self@ == apps.deep_view(),
                app_names.deep_view() == accepted(info@.appName),
                app_providers.deep_view() == accepted(info@.appProvider),
                app_soft_versions.deep_view() == accepted(info@.appSoftVersion),
                vendor_ids.deep_view() == accepted(info@.vendorId),
                no_vendor@ == Seq::<char>::empty(),
                pred == (|e: AppListModel| entry_matches(info@, e)),
                ret.deep_view() == self@.take(i as int).filter(pred),
            decreases apps@.len() - i,
        {
            let x = &apps[i];
            let continuity_ok = match info.serviceCont {
                Some(_) => match &x.appInfo.appCharcs {
                    Some(app_charcs) => info.serviceCont == app_charcs.serviceCont,
                    None => false,
                },
                None => true,
            };
            let vendor = match &x.vendorSpecificExt {
                Some(v) => v,
                None => &no_vendor,
            };
            let keep = passes_text(&app_names, &x.appInfo.appName) && passes_text(
                &app_providers,
                &x.appInfo.appProvider,
            ) && passes_text(&app_soft_versions, &x.appInfo.appSoftVersion) && continuity_ok
                && passes_text(&vendor_ids, &vendor.vendorId);
            assert(keep == pred(self@[i as int]));
            let ghost before = ret.deep_view();
            if keep {
                ret.push(x.clone());
                assert(ret.deep_view() =~= before.push(self@[i as int]));
            }
            assert(self@.take(i as int + 1).drop_last() =~= self@.take(i as int));
            assert(self@.take(i as int + 1).filter(pred) == if pred(self@[i as int]) {
                self@.take(i as int).filter(pred).push(self@[i as int])
            } else {
                self@.take(i as int).filter(pred)
            }) by {
                reveal(Seq::filter);
            }
            i = i + 1;
        }
        assert(self@.take(i as int) =~= self@);
        ret
    }
}

/// A catalog loaded once, or the error that its loading met.
pub struct StaticApplicationListServer {
    app_list: Option<ApplicationList>,
    last_err: Option<String>,
}

impl StaticApplicationListServer {
    /// The catalog, when it loaded (none: no catalog was configured).
    pub closed spec fn catalog(&self) -> Option<Seq<AppListModel>> {
        match &self.app_list {
            Some(a) => Some(a@),
            None => None,
        }
    }

    /// The error met while loading the catalog, if any.
    pub closed spec fn load_error(&self) -> Option<Seq<char>> {
        self.last_err.deep_view()
    }

    /// A server with no catalog: every query returns an empty list.
    pub fn empty() -> (r: Self)
        ensures
            r.catalog() is None,
            r.load_error() is None,
    {
        StaticApplicationListServer { app_list: None, last_err: None }
    }

    /// A server over the outcome of loading a catalog: the catalog, or the
    /// error that every query then reports.
    pub fn from_loaded(loaded: Result<ApplicationList, String>) -> (r: Self)
        ensures
            loaded matches Ok(a) ==> r.catalog() == Some(a@) && r.load_error() is None,
            loaded matches Err(e) ==> r.catalog() is None && r.load_error() == Some(e@),
    {
        match loaded {
            Ok(a) => StaticApplicationListServer { app_list: Some(a), last_err: None },
            Err(e) => StaticApplicationListServer { app_list: None, last_err: Some(e) },
        }
    }

    /// The entries of the catalog that meet `info`. Fails with the load
    /// error whatever `info` is, when the catalog did not load; otherwise
    /// fails when `info` is malformed.
    pub fn application_list(&self, info: &ApplicationListInfo) -> (r: Result<
        ApplicationList,
        LcmpError,
    >)
        ensures
            self.load_error() matches Some(e) ==> (r matches Err(
                LcmpError::CatalogUnavailable { reason },
            ) && reason@ == e),
            self.load_error() is None && !query_ok(info@) ==> (r matches Err(
                LcmpError::ValidationFailed { reasons },
            ) && reasons@ == "invalid query"@),
            self.load_error() is None && query_ok(info@) ==> (r matches Ok(l) && l@ == match self.catalog() {
                Some(c) => matching(c, info@),
                None => Seq::empty(),
            }),
    {
        if let Some(err) = &self.last_err {
            return Err(LcmpError::CatalogUnavailable { reason: err.clone() });
        }
        if let Err(reasons) = info.validate() {
            return Err(LcmpError::ValidationFailed { reasons });
        }
        match &self.app_list {
            Some(x) => Ok(ApplicationList { appList: x.matching_info(info) }),
            None => Ok(ApplicationList::empty()),
        }
    }

    /// Healthy unless the catalog failed to load.
    pub fn status(&self) -> (r: Result<(), String>)
        ensures
            self.load_error() is None ==> r is Ok,
            self.load_error() matches Some(e) ==> (r matches Err(x) && x@ == e),
    {
        match &self.last_err {
            Some(x) => Err(x.clone()),
            None => Ok(()),
        }
    }
}

/// A query with no criterion returns the whole catalog, in its order.
pub proof fn lemma_empty_query_returns_all(catalog: Seq<AppListModel>, q: ApplicationListInfoModel)
    requires
        q.appName is None,
        q.appProvider is None,
        q.appSoftVersion is None,
        q.serviceCont is None,
        q.vendorId is None,
    ensures
        matching(catalog, q) == catalog,
    decreases catalog.len(),
{
    reveal(Seq::filter);
    if catalog.len() > 0 {
        lemma_empty_query_returns_all(catalog.drop_last(), q);
        assert(catalog.drop_last().push(catalog.last()) =~= catalog);
    }
}

} // verus!
