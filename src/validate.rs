//! Structural validation of the messages. Every element is checked on its
//! own; a parent reports each failing child as one reason (the child's
//! reasons joined with `;`) after its own field checks, and never stops at
//! the first failure.
use crate::messages::{
    AppCharcs, AppContext, AppContextModel, AppInfoContext, AppInfoContextModel, AppInfoList,
    AppInfoListModel, AppList, AppListModel, ApplicationList,
    CivicAddressElement, CivicAddressElementModel, LocationConstraints, LocationConstraintsModel,
    Polygon, PolygonModel, ProblemDetails, UserAppInstanceInfo, UserAppInstanceInfoModel,
    VendorSpecificExt,
};
use crate::text::{char_count, check, decimal, decimal_text, join_reasons};
use vstd::prelude::*;

verus! {

/// Longest name, provider, version or identifier, in characters.
pub const MAX_NAME_LEN: usize = 32;

/// Longest description, in characters.
pub const MAX_DESCRIPTION_LEN: usize = 128;

/// A failed child as its parent reports it: one reason, or none.
pub open spec fn reported(reasons: Seq<Seq<char>>) -> Seq<Seq<char>> {
    if reasons.len() == 0 {
        Seq::empty()
    } else {
        seq![join_reasons(reasons)]
    }
}

/// The reasons that a parent reports for its children, in their order.
pub open spec fn collected(children: Seq<Seq<Seq<char>>>) -> Seq<Seq<char>>
    decreases children.len(),
{
    if children.len() == 0 {
        Seq::empty()
    } else {
        collected(children.drop_last()) + reported(children.last())
    }
}

/// `reason` when `failed` holds, nothing otherwise.
pub open spec fn reason_if(failed: bool, reason: Seq<char>) -> Seq<Seq<char>> {
    if failed {
        seq![reason]
    } else {
        Seq::empty()
    }
}

/// Whether an optional text is longer than `max` characters.
pub open spec fn opt_too_long(s: Option<Seq<char>>, max: nat) -> bool {
    s matches Some(t) && t.len() > max
}

pub open spec fn polygon_reasons(p: PolygonModel) -> Seq<Seq<char>> {
    reason_if(
        exists|i: int, j: int|
            0 <= i < p.coordinates.len() && 0 <= j < p.coordinates[i].len()
                && #[trigger] p.coordinates[i][j].len() != 2,
        "each point must be identified by two values"@,
    )
}

pub open spec fn civic_reasons(c: CivicAddressElementModel) -> Seq<Seq<char>> {
    reason_if(c.caValue.len() == 0, "Empty caValue in civicAddressElement"@)
}

pub open spec fn location_reasons(l: LocationConstraintsModel) -> Seq<Seq<char>> {
    match l.area {
        Some(p) => if l.countryCode is Some || l.civicAddressElement.len() > 0 {
            seq!["countryCode and civicAddressElement must be empty with area"@]
        } else {
            polygon_reasons(p)
        },
        None => if l.countryCode is None || l.countryCode == Some(Seq::<char>::empty()) {
            seq!["Empty countryCode in LocalConstraints"@]
        } else if l.civicAddressElement.len() == 0 {
            seq!["Empty civicAddressElement in LocalConstraints"@]
        } else {
            reason_if(
                exists|k: int|
                    0 <= k < l.civicAddressElement.len()
                        && #[trigger] l.civicAddressElement[k].caValue.len() == 0,
                "Empty caValue in civicAddressElement"@,
            )
        },
    }
}

/// Service continuity, when present, is 0 or 1.
pub open spec fn service_cont_ok(s: Option<u32>) -> bool {
    s matches Some(x) ==> x <= 1
}

pub open spec fn app_charcs_reasons(a: AppCharcs) -> Seq<Seq<char>> {
    match a.serviceCont {
        Some(x) => reason_if(x > 1, "invalid serviceCont value: "@ + decimal(x as nat)),
        None => Seq::empty(),
    }
}

pub open spec fn app_info_list_reasons(a: AppInfoListModel) -> Seq<Seq<char>> {
    reason_if(a.appName.len() > 32, "appName is too long"@) + reason_if(
        a.appProvider.len() > 32,
        "appProvider is too long"@,
    ) + reason_if(a.appSoftVersion.len() > 32, "appSoftVersion is too long"@) + reason_if(
        a.appDescription.len() > 128,
        "appDescription is too long"@,
    ) + collected(a.appLocation.map_values(|l: LocationConstraintsModel| location_reasons(l)))
        + match a.appCharcs {
        Some(c) => reported(app_charcs_reasons(c)),
        None => Seq::empty(),
    }
}

pub open spec fn user_app_instance_reasons(u: UserAppInstanceInfoModel) -> Seq<Seq<char>> {
    match u.appLocation {
        Some(l) => location_reasons(l),
        None => Seq::empty(),
    }
}

pub open spec fn app_info_context_reasons(a: AppInfoContextModel) -> Seq<Seq<char>> {
    reason_if(a.appName.len() > 32, "appName is too long"@) + reason_if(
        a.appProvider.len() > 32,
        "appProvider is too long"@,
    ) + reason_if(opt_too_long(a.appSoftVersion, 32), "appSoftVersion is too long"@) + reason_if(
        opt_too_long(a.appDescription, 128),
        "appDescription is too long"@,
    ) + collected(
        a.userAppInstanceInfo.map_values(
            |u: UserAppInstanceInfoModel| user_app_instance_reasons(u),
        ),
    )
}

pub open spec fn vendor_reasons(vendor_id: Seq<char>) -> Seq<Seq<char>> {
    reason_if(vendor_id.len() > 32, "vendorId is too long"@)
}

pub open spec fn app_list_reasons(a: AppListModel) -> Seq<Seq<char>> {
    reported(app_info_list_reasons(a.appInfo)) + match a.vendorId {
        Some(v) => reported(vendor_reasons(v)),
        None => Seq::empty(),
    }
}

pub open spec fn application_list_reasons(l: Seq<AppListModel>) -> Seq<Seq<char>> {
    collected(l.map_values(|a: AppListModel| app_list_reasons(a)))
}

pub open spec fn app_context_reasons(c: AppContextModel) -> Seq<Seq<char>> {
    reason_if(opt_too_long(c.contextId, 32), "contextId is too long"@) + reason_if(
        c.associateDevAppId.len() > 32,
        "associateDevAppId is too long"@,
    ) + reported(app_info_context_reasons(c.appInfo))
}

/// Validation of a message or of an element of one.
pub trait Validate {
    /// Why the value is invalid, one reason after the other; empty when it
    /// is valid.
    spec fn reasons(&self) -> Seq<Seq<char>>;

    /// Succeeds when there is no reason; otherwise fails with the reasons
    /// joined with `;`.
    fn validate(&self) -> (r: Result<(), String>)
        ensures
            self.reasons().len() == 0 ==> r is Ok,
            self.reasons().len() > 0 ==> (r matches Err(e) && e@ == join_reasons(self.reasons())),
    ;
}

/// Appends to `problems` the failure of `item`, if it has one.
pub fn add_problem<T: Validate>(item: &T, problems: &mut Vec<String>)
    ensures
        final(problems).deep_view() == old(problems).deep_view() + reported(item.reasons()),
{
    match item.validate() {
        Ok(()) => {
            assert(old(problems).deep_view() + reported(item.reasons()) =~= old(
                problems,
            ).deep_view());
        },
        Err(err) => {
            let ghost before = problems.deep_view();
            problems.push(err);
            assert(problems.deep_view() =~= before + reported(item.reasons()));
        },
    }
}

/// Whether a service-continuity value is absent, 0 or 1.
pub fn service_cont_valid(s: Option<u32>) -> (r: bool)
    ensures
        r == service_cont_ok(s),
{
    match s {
        Some(x) => x <= 1,
        None => true,
    }
}

impl Validate for ProblemDetails {
    open spec fn reasons(&self) -> Seq<Seq<char>> {
        Seq::empty()
    }

    fn validate(&self) -> (r: Result<(), String>) {
        Ok(())
    }
}

impl Validate for Polygon {
    open spec fn reasons(&self) -> Seq<Seq<char>> {
        polygon_reasons(self@)
    }

    fn validate(&self) -> (r: Result<(), String>) {
        let rings = &self.coordinates;
        let mut i: usize = 0;
        while i < rings.len()
            invariant
                i <= rings@.len(),
                self@.coordinates == rings.deep_view(),
                forall|a: int, b: int|
                    0 <= a < i && 0 <= b < self@.coordinates[a].len() ==> #[trigger] self@.coordinates[a][b].len()
                        == 2,
            decreases rings@.len() - i,
        {
            let ring = &rings[i];
            let mut j: usize = 0;
            while j < ring.len()
                invariant
                    i < rings@.len(),
                    j <= ring@.len(),
                    ring == rings@[i as int],
                    self@.coordinates == rings.deep_view(),
                    forall|a: int, b: int|
                        0 <= a < i && 0 <= b < self@.coordinates[a].len() ==> #[trigger] self@.coordinates[a][b].len()
                            == 2,
                    forall|b: int| 0 <= b < j ==> #[trigger] self@.coordinates[i as int][b].len() == 2,
                decreases ring@.len() - j,
            {
                if ring[j].len() != 2 {
                    assert(self@.coordinates[i as int][j as int].len() != 2);
                    return Err("each point must be identified by two values".to_string());
                }
                j = j + 1;
            }
            i = i + 1;
        }
        Ok(())
    }
}

impl Validate for CivicAddressElement {
    open spec fn reasons(&self) -> Seq<Seq<char>> {
        civic_reasons(self@)
    }

    fn validate(&self) -> (r: Result<(), String>) {
        if char_count(&self.caValue) == 0 {
            return Err("Empty caValue in civicAddressElement".to_string());
        }
        Ok(())
    }
}

/// Taking one more child adds what the parent reports for it.
pub proof fn lemma_collected_step(children: Seq<Seq<Seq<char>>>, i: int)
    requires
        0 <= i < children.len(),
    ensures
        collected(children.take(i + 1)) == collected(children.take(i)) + reported(children[i]),
{
    assert(children.take(i + 1).drop_last() =~= children.take(i));
}

impl Validate for LocationConstraints {
    open spec fn reasons(&self) -> Seq<Seq<char>> {
        location_reasons(self@)
    }

    fn validate(&self) -> (r: Result<(), String>) {
        match &self.area {
            Some(polygon) => {
                if self.countryCode.is_some() || self.civicAddressElement.len() > 0 {
                    return Err(
                        "countryCode and civicAddressElement must be empty with area".to_string(),
                    );
                }
                polygon.validate()
            },
            None => {
                let no_code = match &self.countryCode {
                    Some(code) => {
                        let n = char_count(code);
                        proof {
                            if n == 0 {
                                assert(code@ =~= Seq::<char>::empty());
                            }
                        }
                        n == 0
                    },
                    None => true,
                };
                if no_code {
                    Err("Empty countryCode in LocalConstraints".to_string())
                } else if self.civicAddressElement.len() == 0 {
                    Err("Empty civicAddressElement in LocalConstraints".to_string())
                } else {
                    let civics = &self.civicAddressElement;
                    let mut k: usize = 0;
                    while k < civics.len()
                        invariant
                            k <= civics@.len(),
                            self@.civicAddressElement == civics.deep_view(),
                            self@.area is None,
                            self@.countryCode is Some,
                            self@.countryCode != Some(Seq::<char>::empty()),
                            self@.civicAddressElement.len() > 0,
                            forall|m: int|
                                0 <= m < k ==> #[trigger] self@.civicAddressElement[m].caValue.len()
                                    != 0,
                        decreases civics@.len() - k,
                    {
                        let v = civics[k].validate();
                        if v.is_err() {
                            assert(self@.civicAddressElement[k as int].caValue.len() == 0);
                            assert(self.reasons() =~= seq!["Empty caValue in civicAddressElement"@]);
                            assert(civics@[k as int].reasons() =~= self.reasons());
                            return v;
                        }
                        k = k + 1;
                    }
                    Ok(())
                }
            },
        }
    }
}

impl Validate for AppCharcs {
    open spec fn reasons(&self) -> Seq<Seq<char>> {
        app_charcs_reasons(*self)
    }

    fn validate(&self) -> (r: Result<(), String>) {
        match self.serviceCont {
            Some(x) => if x <= 1 {
                Ok(())
            } else {
                let mut reason = "invalid serviceCont value: ".to_string();
                let number = decimal_text(x as u64);
                reason.append(number.as_str());
                Err(reason)
            },
            None => Ok(()),
        }
    }
}

impl Validate for VendorSpecificExt {
    open spec fn reasons(&self) -> Seq<Seq<char>> {
        vendor_reasons(self@)
    }

    fn validate(&self) -> (r: Result<(), String>) {
        if char_count(&self.vendorId) > MAX_NAME_LEN {
            Err("vendorId is too long".to_string())
        } else {
            Ok(())
        }
    }
}

impl Validate for UserAppInstanceInfo {
    open spec fn reasons(&self) -> Seq<Seq<char>> {
        user_app_instance_reasons(self@)
    }

    fn validate(&self) -> (r: Result<(), String>) {
        match &self.appLocation {
            Some(x) => x.validate(),
            None => Ok(()),
        }
    }
}

/// Appends `reason` to `problems` when `failed` holds.
fn push_if(problems: &mut Vec<String>, failed: bool, reason: &str)
    ensures
        final(problems).deep_view() == old(problems).deep_view() + reason_if(failed, reason@),
{
    let ghost before = problems.deep_view();
    if failed {
        problems.push(reason.to_string());
    }
    assert(problems.deep_view() =~= before + reason_if(failed, reason@));
}

/// Whether an optional text is longer than `max` characters.
fn opt_longer_than(s: &Option<String>, max: usize) -> (r: bool)
    ensures
        r == opt_too_long(s.deep_view(), max as nat),
{
    match s {
        Some(t) => char_count(t) > max,
        None => false,
    }
}

impl Validate for AppInfoList {
    open spec fn reasons(&self) -> Seq<Seq<char>> {
        app_info_list_reasons(self@)
    }

    fn validate(&self) -> (r: Result<(), String>) {
        let mut problems: Vec<String> = Vec::new();
        push_if(&mut problems, char_count(&self.appName) > MAX_NAME_LEN, "appName is too long");
        push_if(
            &mut problems,
            char_count(&self.appProvider) > MAX_NAME_LEN,
            "appProvider is too long",
        );
        push_if(
            &mut problems,
            char_count(&self.appSoftVersion) > MAX_NAME_LEN,
            "appSoftVersion is too long",
        );
        push_if(
            &mut problems,
            char_count(&self.appDescription) > MAX_DESCRIPTION_LEN,
            "appDescription is too long",
        );
        let ghost own = problems.deep_view();
        let ghost children = self@.appLocation.map_values(
            |l: LocationConstraintsModel| location_reasons(l),
        );
        let locations = &self.appLocation;
        let mut i: usize = 0;
        while i < locations.len()
            invariant
                i <= locations@.len(),
                self@.appLocation == locations.deep_view(),
                children == self@.appLocation.map_values(
                    |l: LocationConstraintsModel| location_reasons(l),
                ),
                problems.deep_view() == own + collected(children.take(i as int)),
            decreases locations@.len() - i,
        {
            add_problem(&locations[i], &mut problems);
            proof {
                lemma_collected_step(children, i as int);
            }
            i = i + 1;
        }
        assert(children.take(i as int) =~= children);
        match &self.appCharcs {
            Some(c) => add_problem(c, &mut problems),
            None => {},
        }
        assert(problems.deep_view() =~= self.reasons());
        check(problems)
    }
}

impl Validate for AppInfoContext {
    open spec fn reasons(&self) -> Seq<Seq<char>> {
        app_info_context_reasons(self@)
    }

    fn validate(&self) -> (r: Result<(), String>) {
        let mut problems: Vec<String> = Vec::new();
        push_if(&mut problems, char_count(&self.appName) > MAX_NAME_LEN, "appName is too long");
        push_if(
            &mut problems,
            char_count(&self.appProvider) > MAX_NAME_LEN,
            "appProvider is too long",
        );
        push_if(
            &mut problems,
            opt_longer_than(&self.appSoftVersion, MAX_NAME_LEN),
            "appSoftVersion is too long",
        );
        push_if(
            &mut problems,
            opt_longer_than(&self.appDescription, MAX_DESCRIPTION_LEN),
            "appDescription is too long",
        );
        let ghost own = problems.deep_view();
        let ghost children = self@.userAppInstanceInfo.map_values(
            |u: UserAppInstanceInfoModel| user_app_instance_reasons(u),
        );
        let instances = &self.userAppInstanceInfo;
        let mut i: usize = 0;
        while i < instances.len()
            invariant
                i <= instances@.len(),
                self@.userAppInstanceInfo == instances.deep_view(),
                children == self@.userAppInstanceInfo.map_values(
                    |u: UserAppInstanceInfoModel| user_app_instance_reasons(u),
                ),
                problems.deep_view() == own + collected(children.take(i as int)),
            decreases instances@.len() - i,
        {
            add_problem(&instances[i], &mut problems);
            proof {
                lemma_collected_step(children, i as int);
            }
            i = i + 1;
        }
        assert(children.take(i as int) =~= children);
        assert(problems.deep_view() =~= self.reasons());
        check(problems)
    }
}

impl Validate for AppList {
    open spec fn reasons(&self) -> Seq<Seq<char>> {
        app_list_reasons(self@)
    }

    fn validate(&self) -> (r: Result<(), String>) {
        let mut problems: Vec<String> = Vec::new();
        add_problem(&self.appInfo, &mut problems);
        match &self.vendorSpecificExt {
            Some(x) => add_problem(x, &mut problems),
            None => {},
        }
        assert(problems.deep_view() =~= self.reasons());
        check(problems)
    }
}

impl Validate for ApplicationList {
    open spec fn reasons(&self) -> Seq<Seq<char>> {
        application_list_reasons(self@)
    }

    fn validate(&self) -> (r: Result<(), String>) {
        let mut problems: Vec<String> = Vec::new();
        let ghost children = self@.map_values(|a: AppListModel| app_list_reasons(a));
        let apps = &self.appList;
        let mut i: usize = 0;
        while i < apps.len()
            invariant
                i <= apps@.len(),
                self@ == apps.deep_view(),
                children == self@.map_values(|a: AppListModel| app_list_reasons(a)),
                problems.deep_view() == collected(children.take(i as int)),
            decreases apps@.len() - i,
        {
            add_problem(&apps[i], &mut problems);
            proof {
                lemma_collected_step(children, i as int);
                assert(Seq::<Seq<char>>::empty() + collected(children.take(i as int + 1))
                    =~= collected(children.take(i as int + 1)));
            }
            i = i + 1;
        }
        assert(children.take(i as int) =~= children);
        check(problems)
    }
}

impl Validate for AppContext {
    open spec fn reasons(&self) -> Seq<Seq<char>> {
        app_context_reasons(self@)
    }

    fn validate(&self) -> (r: Result<(), String>) {
        let mut problems: Vec<String> = Vec::new();
        push_if(
            &mut problems,
            opt_longer_than(&self.contextId, MAX_NAME_LEN),
            "contextId is too long",
        );
        push_if(
            &mut problems,
            char_count(&self.associateDevAppId) > MAX_NAME_LEN,
            "associateDevAppId is too long",
        );
        add_problem(&self.appInfo, &mut problems);
        assert(problems.deep_view() =~= self.reasons());
        check(problems)
    }
}

/// Why a context cannot be a creation request, if it cannot: its structural
/// reasons joined with `;` first, then an assigned identifier, then assigned
/// instances.
pub open spec fn request_problem(c: AppContextModel) -> Option<Seq<char>> {
    if app_context_reasons(c).len() > 0 {
        Some(join_reasons(app_context_reasons(c)))
    } else if c.contextId is Some {
        Some("contextId cannot be present in a request AppContext"@)
    } else if c.appInfo.userAppInstanceInfo.len() > 0 {
        Some("userAppInstanceInfo cannot be present in a request AppContext"@)
    } else {
        None
    }
}

impl AppContext {
    /// Checks that this context is a valid creation request: structurally
    /// valid, with no context identifier and no application instance.
    pub fn valid_request(&self) -> (r: Result<(), String>)
        ensures
            request_problem(self@) is None ==> r is Ok,
            request_problem(self@) matches Some(p) ==> (r matches Err(e) && e@ == p),
    {
        if let Err(x) = self.validate() {
            return Err(x);
        }
        if self.contextId.is_some() {
            return Err("contextId cannot be present in a request AppContext".to_string());
        }
        if self.appInfo.userAppInstanceInfo.len() > 0 {
            return Err("userAppInstanceInfo cannot be present in a request AppContext".to_string());
        }
        Ok(())
    }
}

} // verus!
