use etsi_mec_qkd::messages::{
    AppCharcs, AppContext, AppInfoContext, AppInfoList, AppList, ApplicationList,
    ApplicationListInfo, CivicAddressElement, LocationConstraints, Polygon, ProblemDetails,
    UserAppInstanceInfo, VendorSpecificExt,
};
use etsi_mec_qkd::validate::Validate;

fn point(x: f64, y: f64) -> Vec<u64> {
    vec![x.to_bits(), y.to_bits()]
}

fn default_polygon() -> Polygon {
    Polygon {
        coordinates: vec![
            vec![point(0.0, 1.0), point(1.0, 1.0), point(1.0, 0.0)],
            vec![point(0.0, 0.1), point(0.1, 0.1), point(0.1, 0.0)],
        ],
    }
}

fn default_app_charcs() -> AppCharcs {
    AppCharcs {
        memory: Some(100),
        storage: Some(200),
        latency: Some(50),
        bandwidth: Some(42),
        serviceCont: Some(1),
    }
}

fn area_only() -> LocationConstraints {
    LocationConstraints {
        countryCode: None,
        civicAddressElement: vec![],
        area: Some(default_polygon()),
    }
}

fn default_app_info_list() -> AppInfoList {
    AppInfoList {
        appDId: "test_appDId".to_owned(),
        appName: "test_appName".to_owned(),
        appProvider: "test_appProvider".to_owned(),
        appSoftVersion: "test_appSoftVersion".to_owned(),
        appDVersion: "test_appDVersion".to_owned(),
        appDescription: "test_appDescription".to_owned(),
        appLocation: vec![area_only()],
        appCharcs: Some(default_app_charcs()),
    }
}

fn default_app_info_context() -> AppInfoContext {
    AppInfoContext {
        appDId: Some("test_appDId".to_owned()),
        appName: "test_appName".to_owned(),
        appProvider: "test_appProvider".to_owned(),
        appSoftVersion: Some("test_appSoftVersion".to_owned()),
        appDVersion: "test_appDVersion".to_owned(),
        appDescription: Some("test_appDescription".to_owned()),
        userAppInstanceInfo: vec![UserAppInstanceInfo {
            appInstanceId: Some("test_appInstanceId".to_owned()),
            referenceURI: Some("test_referenceURI".to_owned()),
            appLocation: Some(area_only()),
        }],
        appPackageSource: Some("test_appPackageSource".to_owned()),
    }
}

fn long_text(n: usize) -> String {
    let mut long = "".to_string();
    (0..n).for_each(|_| long.push('a'));
    long
}

#[test]
fn test_message_polygon() {
    let mut polygon = default_polygon();
    assert_eq!(Ok(()), polygon.validate());

    polygon.coordinates[0][0].push(2.0f64.to_bits());
    assert!(polygon.validate().is_err());
}

#[test]
fn test_message_civic_address_element() {
    let mut c = CivicAddressElement {
        caType: 0,
        caValue: "anything".to_owned(),
    };
    assert_eq!(Ok(()), c.validate());

    c.caValue.clear();
    assert!(c.validate().is_err());
}

#[test]
fn test_message_location_constraints() {
    let mut c = LocationConstraints {
        countryCode: Some(String::from("it")),
        civicAddressElement: vec![CivicAddressElement {
            caType: 0,
            caValue: "anything".to_owned(),
        }],
        area: None,
    };
    assert_eq!(Ok(()), c.validate());

    c.area = Some(default_polygon());
    assert!(c.validate().is_err());

    c.countryCode = None;
    assert!(c.validate().is_err());

    c.civicAddressElement.clear();
    assert_eq!(Ok(()), c.validate());
}

#[test]
fn test_message_app_charcs() {
    let a = AppCharcs {
        memory: None,
        storage: None,
        latency: None,
        bandwidth: None,
        serviceCont: None,
    };
    assert_eq!(Ok(()), a.validate());

    let mut a = default_app_charcs();
    assert_eq!(Ok(()), a.validate());

    a.serviceCont = Some(0);
    assert_eq!(Ok(()), a.validate());

    a.serviceCont = Some(2);
    assert!(a.validate().is_err());
}

#[test]
fn test_message_app_info_list() {
    let a = AppInfoList::empty();
    assert_eq!(Ok(()), a.validate());

    let mut a = default_app_info_list();
    assert_eq!(Ok(()), a.validate());

    a.appName = long_text(33);
    assert!(a.validate().is_err());
}

#[test]
fn test_message_app_info_context() {
    let a = AppInfoContext::empty();
    assert_eq!(Ok(()), a.validate());

    let mut a = default_app_info_context();
    assert_eq!(Ok(()), a.validate());

    a.appName = long_text(33);
    assert!(a.validate().is_err());
}

#[test]
fn test_message_vendor_specific_ext() {
    let mut v = VendorSpecificExt {
        vendorId: "specific-extension".to_owned(),
    };
    assert_eq!(Ok(()), v.validate());

    v.vendorId = long_text(33);
    assert!(v.validate().is_err());
}

#[test]
fn test_message_application_list() {
    let a = ApplicationList {
        appList: vec![
            AppList {
                appInfo: default_app_info_list(),
                vendorSpecificExt: None,
            },
            AppList {
                appInfo: AppInfoList::empty(),
                vendorSpecificExt: Some(VendorSpecificExt {
                    vendorId: "vendor-specific".to_string(),
                }),
            },
        ],
    };
    assert_eq!(Ok(()), a.validate());
}

#[test]
fn test_application_list_info() {
    let info = ApplicationListInfo::empty();
    assert_eq!(Ok(()), info.validate());

    let mut info = ApplicationListInfo {
        appName: Some("app1,app2".to_string()),
        appProvider: Some("provider".to_string()),
        appSoftVersion: Some("1.0,2.0".to_string()),
        serviceCont: Some(1),
        vendorId: None,
    };
    assert_eq!(Ok(()), info.validate());

    info.vendorId = Some(long_text(33));
    assert!(info.validate().is_err());
}

#[test]
fn test_app_context() {
    let mut context = AppContext {
        contextId: None,
        associateDevAppId: "1234".to_owned(),
        callbackReference: None,
        appLocationUpdates: None,
        appAutoInstantiation: None,
        appInfo: default_app_info_context(),
    };
    assert_eq!(Ok(()), context.validate());

    context.contextId = Some("test_contextId".to_owned());
    context.callbackReference = Some("test_callbackReference".to_owned());
    context.appLocationUpdates = Some(true);
    context.appAutoInstantiation = Some(true);
    assert_eq!(Ok(()), context.validate());

    context.contextId = Some(long_text(33));
    assert!(context.validate().is_err());

    assert!(
        AppContext::request_from_name_provider("my_app_name", "my_app_provider")
            .validate()
            .is_ok()
    );
}

#[test]
fn test_message_problem_details() {
    let p = ProblemDetails {
        status: 401,
        detail: "not authorized".to_owned(),
    };
    assert_eq!(Ok(()), p.validate());
}

#[test]
fn polygon_point_with_three_values_fails_then_passes_when_corrected() {
    let mut polygon = default_polygon();
    polygon.coordinates[1][2] = vec![0.1f64.to_bits(), 0.0f64.to_bits(), 7.0f64.to_bits()];
    assert_eq!(
        Err("each point must be identified by two values".to_string()),
        polygon.validate()
    );
    polygon.coordinates[1][2] = point(0.1, 0.0);
    assert_eq!(Ok(()), polygon.validate());
}

#[test]
fn app_info_list_reports_every_reason_in_order() {
    let mut a = default_app_info_list();
    a.appName = long_text(33);
    a.appDescription = long_text(129);
    a.appLocation.push(LocationConstraints {
        countryCode: None,
        civicAddressElement: vec![],
        area: None,
    });
    a.appCharcs = Some(AppCharcs {
        memory: None,
        storage: None,
        latency: None,
        bandwidth: None,
        serviceCont: Some(17),
    });
    assert_eq!(
        Err("appName is too long;appDescription is too long;Empty countryCode in LocalConstraints;invalid serviceCont value: 17"
            .to_string()),
        a.validate()
    );
}

#[test]
fn names_of_exactly_thirty_two_characters_are_accepted() {
    let mut v = VendorSpecificExt { vendorId: long_text(32) };
    assert_eq!(Ok(()), v.validate());
    v.vendorId = long_text(33);
    assert_eq!(Err("vendorId is too long".to_string()), v.validate());
}

#[test]
fn location_messages_name_the_broken_rule() {
    let mut c = LocationConstraints {
        countryCode: Some("".to_string()),
        civicAddressElement: vec![],
        area: None,
    };
    assert_eq!(Err("Empty countryCode in LocalConstraints".to_string()), c.validate());
    c.countryCode = Some("IT".to_string());
    assert_eq!(Err("Empty civicAddressElement in LocalConstraints".to_string()), c.validate());
    c.civicAddressElement.push(CivicAddressElement { caType: 1, caValue: "".to_string() });
    assert_eq!(Err("Empty caValue in civicAddressElement".to_string()), c.validate());
    c.area = Some(default_polygon());
    assert_eq!(
        Err("countryCode and civicAddressElement must be empty with area".to_string()),
        c.validate()
    );
}

#[test]
fn nested_failures_are_joined_into_one_reason() {
    let mut a = default_app_info_context();
    a.userAppInstanceInfo[0].appLocation = Some(LocationConstraints {
        countryCode: Some("IT".to_string()),
        civicAddressElement: vec![],
        area: None,
    });
    a.appSoftVersion = Some(long_text(33));
    let context = AppContext {
        contextId: Some(long_text(40)),
        associateDevAppId: "dev".to_string(),
        callbackReference: None,
        appLocationUpdates: None,
        appAutoInstantiation: None,
        appInfo: a,
    };
    assert_eq!(
        Err("contextId is too long;appSoftVersion is too long;Empty civicAddressElement in LocalConstraints"
            .to_string()),
        context.validate()
    );
}

#[test]
fn creation_request_may_carry_no_id_and_no_instance() {
    let mut request = AppContext::request_from_name_provider("name", "provider");
    assert_eq!(32, request.associateDevAppId.len());
    assert_eq!(Ok(()), request.valid_request());
    request.appInfo.userAppInstanceInfo.push(UserAppInstanceInfo::from_reference_uri("uri"));
    assert_eq!(
        Err("userAppInstanceInfo cannot be present in a request AppContext".to_string()),
        request.valid_request()
    );
    request.contextId = Some("id".to_string());
    assert_eq!(
        Err("contextId cannot be present in a request AppContext".to_string()),
        request.valid_request()
    );
    request.associateDevAppId = long_text(33);
    assert_eq!(Err("associateDevAppId is too long".to_string()), request.valid_request());
}

#[test]
fn instance_from_reference_uri_has_a_fresh_id() {
    let a = UserAppInstanceInfo::from_reference_uri("http://edge/app");
    let b = UserAppInstanceInfo::from_reference_uri("http://edge/app");
    let id = a.appInstanceId.clone().unwrap();
    assert_eq!(32, id.len());
    assert!(id.chars().all(|c| c.is_ascii_digit() || ('a'..='f').contains(&c)));
    assert_ne!(a.appInstanceId, b.appInstanceId);
    assert_eq!(Some("http://edge/app".to_string()), a.referenceURI);
    assert!(a.appLocation.is_none());
}

#[test]
fn clones_and_equality_follow_the_fields() {
    let a = default_app_info_context();
    let b = a.clone();
    assert!(a == b);
    let mut c = a.clone();
    c.userAppInstanceInfo[0].appLocation.as_mut().unwrap().area.as_mut().unwrap().coordinates[0][0][1] =
        5.0f64.to_bits();
    assert!(!(a == c));
}
