//! Messages of the device-application interface (ETSI GS MEC 016), each with
//! its mathematical model: strings are viewed as `Seq<char>` and lists as `Seq`.
use vstd::prelude::*;

verus! {

/// Problem details of a failed request (IETF RFC 7807).
pub struct ProblemDetails {
    /// The status code of this occurrence of the problem.
    pub status: usize,
    /// A human-readable explanation specific to this occurrence of the problem.
    pub detail: String,
}

/// A polygon as defined in RFC 7946: a sequence of rings, each a sequence of
/// points, each point a sequence of coordinate values. The first ring is the
/// exterior one, the others are holes. A coordinate value is held as the bit
/// pattern of its IEEE-754 double, so that it is carried through unchanged.
pub struct Polygon {
    pub coordinates: Vec<Vec<Vec<u64>>>,
}

/// One element of a civic address.
pub struct CivicAddressElement {
    /// Content type of caValue (IETF RFC 4776, section 3.4).
    pub caType: i32,
    /// Content of the civic address element.
    pub caValue: String,
}

/// Where an application may run: a country with a civic address, or an area.
pub struct LocationConstraints {
    /// Two-letter ISO 3166 country code; present when `area` is absent.
    pub countryCode: Option<String>,
    /// Elements of the civic address; empty when `area` is present.
    pub civicAddressElement: Vec<CivicAddressElement>,
    /// Geographic area.
    pub area: Option<Polygon>,
}

/// Characteristics of the application: the system resources it consumes.
#[derive(Clone, Copy, PartialEq, Eq, Structural, Debug)]
pub struct AppCharcs {
    /// Maximum memory in Mbytes.
    pub memory: Option<u32>,
    /// Maximum storage in Mbytes.
    pub storage: Option<u32>,
    /// Target round trip time in milliseconds.
    pub latency: Option<u32>,
    /// Required bandwidth in kbit/s.
    pub bandwidth: Option<u32>,
    /// Service continuity: 0 = not required, 1 = required.
    pub serviceCont: Option<u32>,
}

/// Application information of a catalog entry.
pub struct AppInfoList {
    /// Globally unique identifier of the application descriptor.
    pub appDId: String,
    pub appName: String,
    pub appProvider: String,
    pub appSoftVersion: String,
    pub appDVersion: String,
    pub appDescription: String,
    pub appLocation: Vec<LocationConstraints>,
    pub appCharcs: Option<AppCharcs>,
}

/// A user application instance of a context; assigned by the store.
pub struct UserAppInstanceInfo {
    pub appInstanceId: Option<String>,
    pub referenceURI: Option<String>,
    pub appLocation: Option<LocationConstraints>,
}

/// Application information of an application context.
pub struct AppInfoContext {
    /// Present when the application is one of the catalog.
    pub appDId: Option<String>,
    pub appName: String,
    pub appProvider: String,
    pub appSoftVersion: Option<String>,
    pub appDVersion: String,
    pub appDescription: Option<String>,
    pub userAppInstanceInfo: Vec<UserAppInstanceInfo>,
    /// Present when the application is not one of the catalog.
    pub appPackageSource: Option<String>,
}

/// Vendor-specific extension of a catalog entry.
pub struct VendorSpecificExt {
    pub vendorId: String,
}

/// One entry of the catalog.
pub struct AppList {
    pub appInfo: AppInfoList,
    pub vendorSpecificExt: Option<VendorSpecificExt>,
}

/// The catalog of applications available to the device applications.
pub struct ApplicationList {
    pub appList: Vec<AppList>,
}

/// Criteria of a catalog query. Each string holds comma-separated values.
pub struct ApplicationListInfo {
    pub appName: Option<String>,
    pub appProvider: Option<String>,
    pub appSoftVersion: Option<String>,
    pub serviceCont: Option<u32>,
    pub vendorId: Option<String>,
}

/// An application context: an instantiation request of a device application.
pub struct AppContext {
    /// Assigned by the store; absent in a creation request.
    pub contextId: Option<String>,
    pub associateDevAppId: String,
    /// The only field that may change after creation.
    pub callbackReference: Option<String>,
    pub appLocationUpdates: Option<bool>,
    pub appAutoInstantiation: Option<bool>,
    pub appInfo: AppInfoContext,
}

/// Model of a `Polygon`.
pub struct PolygonModel {
    pub coordinates: Seq<Seq<Seq<u64>>>,
}

/// Model of a `CivicAddressElement`.
pub struct CivicAddressElementModel {
    pub caType: i32,
    pub caValue: Seq<char>,
}

/// Model of a `LocationConstraints`.
pub struct LocationConstraintsModel {
    pub countryCode: Option<Seq<char>>,
    pub civicAddressElement: Seq<CivicAddressElementModel>,
    pub area: Option<PolygonModel>,
}

/// Model of an `AppInfoList`.
pub struct AppInfoListModel {
    pub appDId: Seq<char>,
    pub appName: Seq<char>,
    pub appProvider: Seq<char>,
    pub appSoftVersion: Seq<char>,
    pub appDVersion: Seq<char>,
    pub appDescription: Seq<char>,
    pub appLocation: Seq<LocationConstraintsModel>,
    pub appCharcs: Option<AppCharcs>,
}

/// Model of a `UserAppInstanceInfo`.
pub struct UserAppInstanceInfoModel {
    pub appInstanceId: Option<Seq<char>>,
    pub referenceURI: Option<Seq<char>>,
    pub appLocation: Option<LocationConstraintsModel>,
}

/// Model of an `AppInfoContext`.
pub struct AppInfoContextModel {
    pub appDId: Option<Seq<char>>,
    pub appName: Seq<char>,
    pub appProvider: Seq<char>,
    pub appSoftVersion: Option<Seq<char>>,
    pub appDVersion: Seq<char>,
    pub appDescription: Option<Seq<char>>,
    pub userAppInstanceInfo: Seq<UserAppInstanceInfoModel>,
    pub appPackageSource: Option<Seq<char>>,
}

/// Model of an `AppList`: its application information and the vendor
/// identifier of its extension, if it has one.
pub struct AppListModel {
    pub appInfo: AppInfoListModel,
    pub vendorId: Option<Seq<char>>,
}

/// Model of an `ApplicationListInfo`.
pub struct ApplicationListInfoModel {
    pub appName: Option<Seq<char>>,
    pub appProvider: Option<Seq<char>>,
    pub appSoftVersion: Option<Seq<char>>,
    pub serviceCont: Option<u32>,
    pub vendorId: Option<Seq<char>>,
}

/// Model of an `AppContext`.
pub struct AppContextModel {
    pub contextId: Option<Seq<char>>,
    pub associateDevAppId: Seq<char>,
    pub callbackReference: Option<Seq<char>>,
    pub appLocationUpdates: Option<bool>,
    pub appAutoInstantiation: Option<bool>,
    pub appInfo: AppInfoContextModel,
}

impl View for Polygon {
    type V = PolygonModel;

    open spec fn view(&self) -> PolygonModel {
        PolygonModel { coordinates: self.coordinates.deep_view() }
    }
}

impl DeepView for Polygon {
    type V = PolygonModel;

    open spec fn deep_view(&self) -> PolygonModel {
        self@
    }
}

impl View for CivicAddressElement {
    type V = CivicAddressElementModel;

    open spec fn view(&self) -> CivicAddressElementModel {
        CivicAddressElementModel { caType: self.caType, caValue: self.caValue@ }
    }
}

impl DeepView for CivicAddressElement {
    type V = CivicAddressElementModel;

    open spec fn deep_view(&self) -> CivicAddressElementModel {
        self@
    }
}

impl View for LocationConstraints {
    type V = LocationConstraintsModel;

    open spec fn view(&self) -> LocationConstraintsModel {
        LocationConstraintsModel {
            countryCode: self.countryCode.deep_view(),
            civicAddressElement: self.civicAddressElement.deep_view(),
            area: self.area.deep_view(),
        }
    }
}

impl DeepView for LocationConstraints {
    type V = LocationConstraintsModel;

    open spec fn deep_view(&self) -> LocationConstraintsModel {
        self@
    }
}

impl View for AppInfoList {
    type V = AppInfoListModel;

    open spec fn view(&self) -> AppInfoListModel {
        AppInfoListModel {
            appDId: self.appDId@,
            appName: self.appName@,
            appProvider: self.appProvider@,
            appSoftVersion: self.appSoftVersion@,
            appDVersion: self.appDVersion@,
            appDescription: self.appDescription@,
            appLocation: self.appLocation.deep_view(),
            appCharcs: self.appCharcs,
        }
    }
}

impl DeepView for AppInfoList {
    type V = AppInfoListModel;

    open spec fn deep_view(&self) -> AppInfoListModel {
        self@
    }
}

impl View for UserAppInstanceInfo {
    type V = UserAppInstanceInfoModel;

    open spec fn view(&self) -> UserAppInstanceInfoModel {
        UserAppInstanceInfoModel {
            appInstanceId: self.appInstanceId.deep_view(),
            referenceURI: self.referenceURI.deep_view(),
            appLocation: self.appLocation.deep_view(),
        }
    }
}

impl DeepView for UserAppInstanceInfo {
    type V = UserAppInstanceInfoModel;

    open spec fn deep_view(&self) -> UserAppInstanceInfoModel {
        self@
    }
}

impl View for AppInfoContext {
    type V = AppInfoContextModel;

    open spec fn view(&self) -> AppInfoContextModel {
        AppInfoContextModel {
            appDId: self.appDId.deep_view(),
            appName: self.appName@,
            appProvider: self.appProvider@,
            appSoftVersion: self.appSoftVersion.deep_view(),
            appDVersion: self.appDVersion@,
            appDescription: self.appDescription.deep_view(),
            userAppInstanceInfo: self.userAppInstanceInfo.deep_view(),
            appPackageSource: self.appPackageSource.deep_view(),
        }
    }
}

impl DeepView for AppInfoContext {
    type V = AppInfoContextModel;

    open spec fn deep_view(&self) -> AppInfoContextModel {
        self@
    }
}

impl View for VendorSpecificExt {
    type V = Seq<char>;

    open spec fn view(&self) -> Seq<char> {
        self.vendorId@
    }
}

impl DeepView for VendorSpecificExt {
    type V = Seq<char>;

    open spec fn deep_view(&self) -> Seq<char> {
        self@
    }
}

impl View for AppList {
    type V = AppListModel;

    open spec fn view(&self) -> AppListModel {
        AppListModel { appInfo: self.appInfo@, vendorId: self.vendorSpecificExt.deep_view() }
    }
}

impl DeepView for AppList {
    type V = AppListModel;

    open spec fn deep_view(&self) -> AppListModel {
        self@
    }
}

impl View for ApplicationList {
    type V = Seq<AppListModel>;

    open spec fn view(&self) -> Seq<AppListModel> {
        self.appList.deep_view()
    }
}

impl View for ApplicationListInfo {
    type V = ApplicationListInfoModel;

    open spec fn view(&self) -> ApplicationListInfoModel {
        ApplicationListInfoModel {
            appName: self.appName.deep_view(),
            appProvider: self.appProvider.deep_view(),
            appSoftVersion: self.appSoftVersion.deep_view(),
            serviceCont: self.serviceCont,
            vendorId: self.vendorId.deep_view(),
        }
    }
}

impl View for AppContext {
    type V = AppContextModel;

    open spec fn view(&self) -> AppContextModel {
        AppContextModel {
            contextId: self.contextId.deep_view(),
            associateDevAppId: self.associateDevAppId@,
            callbackReference: self.callbackReference.deep_view(),
            appLocationUpdates: self.appLocationUpdates,
            appAutoInstantiation: self.appAutoInstantiation,
            appInfo: self.appInfo@,
        }
    }
}

impl DeepView for AppContext {
    type V = AppContextModel;

    open spec fn deep_view(&self) -> AppContextModel {
        self@
    }
}

/// A copy of a list of points, coordinate for coordinate.
fn clone_ring(ring: &Vec<Vec<u64>>) -> (r: Vec<Vec<u64>>)
    ensures
        r.deep_view() == ring.deep_view(),
{
    let mut out: Vec<Vec<u64>> = Vec::new();
    let mut i: usize = 0;
    while i < ring.len()
        invariant
            i <= ring@.len(),
            out.deep_view() == ring.deep_view().take(i as int),
        decreases ring@.len() - i,
    {
        let point = ring[i].clone();
        assert(point.deep_view() =~= ring@[i as int].deep_view());
        let ghost before = out.deep_view();
        out.push(point);
        assert(out.deep_view() =~= before.push(point.deep_view()));
        assert(out.deep_view() =~= ring.deep_view().take(i as int + 1));
        i = i + 1;
    }
    assert(ring.deep_view().take(i as int) =~= ring.deep_view());
    out
}

impl Clone for Polygon {
    fn clone(&self) -> (r: Self)
        ensures
            r@ == self@,
    {
        let mut rings: Vec<Vec<Vec<u64>>> = Vec::new();
        let mut i: usize = 0;
        while i < self.coordinates.len()
            invariant
                i <= self.coordinates@.len(),
                rings.deep_view() == self.coordinates.deep_view().take(i as int),
            decreases self.coordinates@.len() - i,
        {
            let ring = clone_ring(&self.coordinates[i]);
            let ghost before = rings.deep_view();
            rings.push(ring);
            assert(rings.deep_view() =~= before.push(ring.deep_view()));
            assert(rings.deep_view() =~= self.coordinates.deep_view().take(i as int + 1));
            i = i + 1;
        }
        assert(self.coordinates.deep_view().take(i as int) =~= self.coordinates.deep_view());
        Polygon { coordinates: rings }
    }
}

impl Clone for CivicAddressElement {
    fn clone(&self) -> (r: Self)
        ensures
            r@ == self@,
    {
        CivicAddressElement { caType: self.caType, caValue: self.caValue.clone() }
    }
}

impl Clone for LocationConstraints {
    fn clone(&self) -> (r: Self)
        ensures
            r@ == self@,
    {
        let civic = self.civicAddressElement.clone();
        assert(civic.deep_view() =~= self.civicAddressElement.deep_view());
        let area = match &self.area {
            Some(p) => Some(p.clone()),
            None => None,
        };
        LocationConstraints { countryCode: self.countryCode.clone(), civicAddressElement: civic, area }
    }
}

impl Clone for AppInfoList {
    fn clone(&self) -> (r: Self)
        ensures
            r@ == self@,
    {
        let locations = self.appLocation.clone();
        assert(locations.deep_view() =~= self.appLocation.deep_view());
        AppInfoList {
            appDId: self.appDId.clone(),
            appName: self.appName.clone(),
            appProvider: self.appProvider.clone(),
            appSoftVersion: self.appSoftVersion.clone(),
            appDVersion: self.appDVersion.clone(),
            appDescription: self.appDescription.clone(),
            appLocation: locations,
            appCharcs: self.appCharcs,
        }
    }
}

impl Clone for UserAppInstanceInfo {
    fn clone(&self) -> (r: Self)
        ensures
            r@ == self@,
    {
        let location = match &self.appLocation {
            Some(l) => Some(l.clone()),
            None => None,
        };
        UserAppInstanceInfo {
            appInstanceId: self.appInstanceId.clone(),
            referenceURI: self.referenceURI.clone(),
            appLocation: location,
        }
    }
}

impl Clone for AppInfoContext {
    fn clone(&self) -> (r: Self)
        ensures
            r@ == self@,
    {
        let instances = self.userAppInstanceInfo.clone();
        assert(instances.deep_view() =~= self.userAppInstanceInfo.deep_view());
        AppInfoContext {
            appDId: self.appDId.clone(),
            appName: self.appName.clone(),
            appProvider: self.appProvider.clone(),
            appSoftVersion: self.appSoftVersion.clone(),
            appDVersion: self.appDVersion.clone(),
            appDescription: self.appDescription.clone(),
            userAppInstanceInfo: instances,
            appPackageSource: self.appPackageSource.clone(),
        }
    }
}

impl Clone for VendorSpecificExt {
    fn clone(&self) -> (r: Self)
        ensures
            r@ == self@,
    {
        VendorSpecificExt { vendorId: self.vendorId.clone() }
    }
}

impl Clone for AppList {
    fn clone(&self) -> (r: Self)
        ensures
            r@ == self@,
    {
        let ext = match &self.vendorSpecificExt {
            Some(v) => Some(v.clone()),
            None => None,
        };
        AppList { appInfo: self.appInfo.clone(), vendorSpecificExt: ext }
    }
}

impl Clone for ApplicationList {
    fn clone(&self) -> (r: Self)
        ensures
            r@ == self@,
    {
        let apps = self.appList.clone();
        assert(apps.deep_view() =~= self.appList.deep_view());
        ApplicationList { appList: apps }
    }
}

impl Clone for AppContext {
    fn clone(&self) -> (r: Self)
        ensures
            r@ == self@,
    {
        AppContext {
            contextId: self.contextId.clone(),
            associateDevAppId: self.associateDevAppId.clone(),
            callbackReference: self.callbackReference.clone(),
            appLocationUpdates: self.appLocationUpdates,
            appAutoInstantiation: self.appAutoInstantiation,
            appInfo: self.appInfo.clone(),
        }
    }
}

/// Whether two optional strings hold the same text.
pub fn same_opt_string(a: &Option<String>, b: &Option<String>) -> (r: bool)
    ensures
        r == (a.deep_view() == b.deep_view()),
{
    match (a, b) {
        (Some(x), Some(y)) => x.eq(y),
        (None, None) => true,
        _ => false,
    }
}

/// Whether two points have the same coordinate values.
fn same_point(a: &Vec<u64>, b: &Vec<u64>) -> (r: bool)
    ensures
        r == (a.deep_view() == b.deep_view()),
{
    if a.len() != b.len() {
        assert(a.deep_view().len() != b.deep_view().len());
        return false;
    }
    let mut i: usize = 0;
    while i < a.len()
        invariant
            i <= a@.len(),
            a@.len() == b@.len(),
            forall|j: int| 0 <= j < i ==> a@[j] == b@[j],
        decreases a@.len() - i,
    {
        if a[i] != b[i] {
            assert(a.deep_view()[i as int] != b.deep_view()[i as int]);
            return false;
        }
        i = i + 1;
    }
    assert(a.deep_view() =~= b.deep_view());
    true
}

/// Whether two rings have the same points.
fn same_ring(a: &Vec<Vec<u64>>, b: &Vec<Vec<u64>>) -> (r: bool)
    ensures
        r == (a.deep_view() == b.deep_view()),
{
    if a.len() != b.len() {
        assert(a.deep_view().len() != b.deep_view().len());
        return false;
    }
    let mut i: usize = 0;
    while i < a.len()
        invariant
            i <= a@.len(),
            a@.len() == b@.len(),
            forall|j: int| 0 <= j < i ==> a.deep_view()[j] == b.deep_view()[j],
        decreases a@.len() - i,
    {
        if !same_point(&a[i], &b[i]) {
            assert(a.deep_view()[i as int] != b.deep_view()[i as int]);
            return false;
        }
        i = i + 1;
    }
    assert(a.deep_view() =~= b.deep_view());
    true
}

impl PartialEq for Polygon {
    fn eq(&self, o: &Polygon) -> bool {
        let a = &self.coordinates;
        let b = &o.coordinates;
        if a.len() != b.len() {
            assert(a.deep_view().len() != b.deep_view().len());
            return false;
        }
        let mut i: usize = 0;
        while i < a.len()
            invariant
                i <= a@.len(),
                a@.len() == b@.len(),
                forall|j: int| 0 <= j < i ==> a.deep_view()[j] == b.deep_view()[j],
                self@.coordinates == a.deep_view(),
                o@.coordinates == b.deep_view(),
            decreases a@.len() - i,
        {
            if !same_ring(&a[i], &b[i]) {
                assert(self@.coordinates[i as int] != o@.coordinates[i as int]);
                return false;
            }
            i = i + 1;
        }
        assert(a.deep_view() =~= b.deep_view());
        true
    }
}

impl vstd::std_specs::cmp::PartialEqSpecImpl for Polygon {
    open spec fn obeys_eq_spec() -> bool {
        true
    }

    open spec fn eq_spec(&self, o: &Polygon) -> bool {
        self@ == o@
    }
}

impl PartialEq for CivicAddressElement {
    fn eq(&self, o: &CivicAddressElement) -> bool {
        self.caType == o.caType && self.caValue == o.caValue
    }
}

impl vstd::std_specs::cmp::PartialEqSpecImpl for CivicAddressElement {
    open spec fn obeys_eq_spec() -> bool {
        true
    }

    open spec fn eq_spec(&self, o: &CivicAddressElement) -> bool {
        self@ == o@
    }
}

impl PartialEq for LocationConstraints {
    fn eq(&self, o: &LocationConstraints) -> bool {
        if !same_opt_string(&self.countryCode, &o.countryCode) {
            return false;
        }
        let same_area = match (&self.area, &o.area) {
            (Some(x), Some(y)) => x == y,
            (None, None) => true,
            _ => false,
        };
        if !same_area {
            return false;
        }
        let a = &self.civicAddressElement;
        let b = &o.civicAddressElement;
        if a.len() != b.len() {
            assert(a.deep_view().len() != b.deep_view().len());
            return false;
        }
        let mut i: usize = 0;
        while i < a.len()
            invariant
                i <= a@.len(),
                a@.len() == b@.len(),
                forall|j: int| 0 <= j < i ==> a.deep_view()[j] == b.deep_view()[j],
                self@.civicAddressElement == a.deep_view(),
                o@.civicAddressElement == b.deep_view(),
            decreases a@.len() - i,
        {
            if !(a[i] == b[i]) {
                assert(self@.civicAddressElement[i as int] != o@.civicAddressElement[i as int]);
                return false;
            }
            i = i + 1;
        }
        assert(a.deep_view() =~= b.deep_view());
        true
    }
}

impl vstd::std_specs::cmp::PartialEqSpecImpl for LocationConstraints {
    open spec fn obeys_eq_spec() -> bool {
        true
    }

    open spec fn eq_spec(&self, o: &LocationConstraints) -> bool {
        self@ == o@
    }
}

impl PartialEq for UserAppInstanceInfo {
    fn eq(&self, o: &UserAppInstanceInfo) -> bool {
        let same_location = match (&self.appLocation, &o.appLocation) {
            (Some(x), Some(y)) => x == y,
            (None, None) => true,
            _ => false,
        };
        same_location && same_opt_string(&self.appInstanceId, &o.appInstanceId)
            && same_opt_string(&self.referenceURI, &o.referenceURI)
    }
}

impl vstd::std_specs::cmp::PartialEqSpecImpl for UserAppInstanceInfo {
    open spec fn obeys_eq_spec() -> bool {
        true
    }

    open spec fn eq_spec(&self, o: &UserAppInstanceInfo) -> bool {
        self@ == o@
    }
}

impl PartialEq for AppInfoContext {
    fn eq(&self, o: &AppInfoContext) -> bool {
        if !(same_opt_string(&self.appDId, &o.appDId) && self.appName == o.appName
            && self.appProvider == o.appProvider && same_opt_string(
            &self.appSoftVersion,
            &o.appSoftVersion,
        ) && self.appDVersion == o.appDVersion && same_opt_string(
            &self.appDescription,
            &o.appDescription,
        ) && same_opt_string(&self.appPackageSource, &o.appPackageSource)) {
            return false;
        }
        let a = &self.userAppInstanceInfo;
        let b = &o.userAppInstanceInfo;
        if a.len() != b.len() {
            assert(a.deep_view().len() != b.deep_view().len());
            return false;
        }
        let mut i: usize = 0;
        while i < a.len()
            invariant
                i <= a@.len(),
                a@.len() == b@.len(),
                forall|j: int| 0 <= j < i ==> a.deep_view()[j] == b.deep_view()[j],
                self@.userAppInstanceInfo == a.deep_view(),
                o@.userAppInstanceInfo == b.deep_view(),
            decreases a@.len() - i,
        {
            if !(a[i] == b[i]) {
                assert(self@.userAppInstanceInfo[i as int] != o@.userAppInstanceInfo[i as int]);
                return false;
            }
            i = i + 1;
        }
        assert(a.deep_view() =~= b.deep_view());
        true
    }
}

impl vstd::std_specs::cmp::PartialEqSpecImpl for AppInfoContext {
    open spec fn obeys_eq_spec() -> bool {
        true
    }

    open spec fn eq_spec(&self, o: &AppInfoContext) -> bool {
        self@ == o@
    }
}

impl AppContext {
    /// Whether `other` equals this context in every field but
    /// `callbackReference`.
    pub fn identical_except_callback_reference(&self, other: &AppContext) -> (r: bool)
        ensures
            r == same_except_callback(self@, other@),
    {
        same_opt_string(&self.contextId, &other.contextId) && self.associateDevAppId
            == other.associateDevAppId && self.appLocationUpdates == other.appLocationUpdates
            && self.appAutoInstantiation == other.appAutoInstantiation && self.appInfo
            == other.appInfo
    }
}

/// Two contexts are equal in every field but `callbackReference`.
pub open spec fn same_except_callback(a: AppContextModel, b: AppContextModel) -> bool {
    a == AppContextModel { callbackReference: a.callbackReference, ..b }
}

impl AppInfoList {
    /// Application information with every text empty, no location and no
    /// characteristics.
    pub fn empty() -> (r: Self)
        ensures
            r@ == (AppInfoListModel {
                appDId: Seq::empty(),
                appName: Seq::empty(),
                appProvider: Seq::empty(),
                appSoftVersion: Seq::empty(),
                appDVersion: Seq::empty(),
                appDescription: Seq::empty(),
                appLocation: Seq::empty(),
                appCharcs: None,
            }),
    {
        let r = AppInfoList {
            appDId: String::new(),
            appName: String::new(),
            appProvider: String::new(),
            appSoftVersion: String::new(),
            appDVersion: String::new(),
            appDescription: String::new(),
            appLocation: Vec::new(),
            appCharcs: None,
        };
        assert(r.appLocation.deep_view() =~= Seq::<LocationConstraintsModel>::empty());
        r
    }
}

impl AppInfoContext {
    /// Application information with empty name, provider and descriptor
    /// version, and nothing else.
    pub fn empty() -> (r: Self)
        ensures
            r@ == (AppInfoContextModel {
                appDId: None,
                appName: Seq::empty(),
                appProvider: Seq::empty(),
                appSoftVersion: None,
                appDVersion: Seq::empty(),
                appDescription: None,
                userAppInstanceInfo: Seq::empty(),
                appPackageSource: None,
            }),
    {
        let r = AppInfoContext {
            appDId: None,
            appName: String::new(),
            appProvider: String::new(),
            appSoftVersion: None,
            appDVersion: String::new(),
            appDescription: None,
            userAppInstanceInfo: Vec::new(),
            appPackageSource: None,
        };
        assert(r.userAppInstanceInfo.deep_view() =~= Seq::<UserAppInstanceInfoModel>::empty());
        r
    }
}

} // verus!
