use etsi_mec_qkd::config::{
    build_app_context_server, build_application_list_server, parse_usize, AppContextServerSource,
    ApplicationListSource,
};
use etsi_mec_qkd::error::LcmpError;
use etsi_mec_qkd::filter::StaticApplicationListServer;
use etsi_mec_qkd::messages::{
    AppCharcs, AppInfoList, AppList, ApplicationList, ApplicationListInfo, VendorSpecificExt,
};
use etsi_mec_qkd::resolver::{ReferenceUriMapByAppDIdElem, ReferenceUriResolver};
use etsi_mec_qkd::server::LcmpServer;
use etsi_mec_qkd::text::{decimal_text, split_at_commas};

fn entry(name: &str, provider: &str) -> AppList {
    AppList {
        appInfo: AppInfoList {
            appDId: format!("{}-id", name),
            appName: name.to_string(),
            appProvider: provider.to_string(),
            appSoftVersion: "1.0".to_string(),
            appDVersion: "1".to_string(),
            appDescription: "".to_string(),
            appLocation: vec![],
            appCharcs: None,
        },
        vendorSpecificExt: None,
    }
}

fn names(list: &ApplicationList) -> Vec<String> {
    list.appList.iter().map(|x| x.appInfo.appName.clone()).collect()
}

fn two_entry_catalog() -> StaticApplicationListServer {
    StaticApplicationListServer::from_loaded(Ok(ApplicationList {
        appList: vec![entry("A", "P1"), entry("B", "P2")],
    }))
}

fn query(name: Option<&str>, provider: Option<&str>) -> ApplicationListInfo {
    ApplicationListInfo {
        appName: name.map(|x| x.to_string()),
        appProvider: provider.map(|x| x.to_string()),
        appSoftVersion: None,
        serviceCont: None,
        vendorId: None,
    }
}

#[test]
fn test_build_app_context_server() {
    assert!(build_app_context_server("non-existing-type").is_err());

    assert!(build_app_context_server("single;not-number,URI").is_err());

    assert!(build_app_context_server("single;10").is_err());

    assert!(build_app_context_server("single;10,").is_err());

    assert!(build_app_context_server("single;1,2,3").is_err());
}

#[test]
fn test_build_application_list_server() {
    let a = build_application_list_server("non-existing-type");
    assert!(a.is_err());

    let a = build_application_list_server("static;aaa");
    assert!(a.is_err());

    let a = build_application_list_server("static;file");
    assert!(a.is_err());

    let a = build_application_list_server("static;file=non-existing");
    assert!(a.is_ok());
}

#[test]
fn test_empty_lcmp() -> Result<(), String> {
    let application_list_server = match build_application_list_server("empty")? {
        ApplicationListSource::Empty => StaticApplicationListServer::empty(),
        ApplicationListSource::File(_) => panic!("no file is named"),
    };
    let app_context_server = match build_app_context_server("single;1,URI")? {
        AppContextServerSource::Ready(s) => s,
        AppContextServerSource::File(_) => panic!("no file is named"),
    };
    let lcmp = LcmpServer::build(application_list_server, app_context_server);

    assert!(lcmp.application_list().status().is_ok());
    assert!(lcmp.app_context().status().is_ok());

    Ok(())
}

#[test]
fn filter_by_provider_by_nothing_and_by_two_names() {
    let s = two_entry_catalog();
    let by_provider = s.application_list(&query(None, Some("P1"))).ok().unwrap();
    assert_eq!(vec!["A".to_string()], names(&by_provider));
    let all = s.application_list(&ApplicationListInfo::empty()).ok().unwrap();
    assert_eq!(vec!["A".to_string(), "B".to_string()], names(&all));
    let both = s.application_list(&query(Some("A,B"), None)).ok().unwrap();
    assert_eq!(vec!["A".to_string(), "B".to_string()], names(&both));
}

#[test]
fn criteria_combine_with_and() {
    let s = two_entry_catalog();
    let none = s.application_list(&query(Some("A"), Some("P2"))).ok().unwrap();
    assert!(none.appList.is_empty());
    let one = s.application_list(&query(Some("A,B"), Some("P2"))).ok().unwrap();
    assert_eq!(vec!["B".to_string()], names(&one));
}

#[test]
fn service_continuity_needs_characteristics_with_that_value() {
    let mut with_charcs = entry("C", "PC");
    with_charcs.appInfo.appCharcs = Some(AppCharcs {
        memory: None,
        storage: None,
        latency: None,
        bandwidth: None,
        serviceCont: Some(0),
    });
    let catalog = ApplicationList { appList: vec![entry("A", "P1"), with_charcs] };
    let mut q = ApplicationListInfo::empty();
    q.serviceCont = Some(0);
    let found = catalog.matching_info(&q);
    assert_eq!(1, found.len());
    assert_eq!("C", found[0].appInfo.appName);
    q.serviceCont = Some(1);
    assert!(catalog.matching_info(&q).is_empty());
}

#[test]
fn vendor_filter_treats_a_missing_extension_as_empty() {
    let mut tagged = entry("V", "P");
    tagged.vendorSpecificExt = Some(VendorSpecificExt { vendorId: "acme".to_string() });
    let catalog = ApplicationList { appList: vec![entry("A", "P1"), tagged] };
    let mut q = ApplicationListInfo::empty();
    q.vendorId = Some("acme".to_string());
    let found = catalog.matching_info(&q);
    assert_eq!(1, found.len());
    assert_eq!("V", found[0].appInfo.appName);
    q.vendorId = Some(",other".to_string());
    let found = catalog.matching_info(&q);
    assert_eq!(1, found.len());
    assert_eq!("A", found[0].appInfo.appName);
}

#[test]
fn load_error_is_reported_by_every_query() {
    let s = StaticApplicationListServer::from_loaded(Err("no such file".to_string()));
    match s.application_list(&ApplicationListInfo::empty()) {
        Err(LcmpError::CatalogUnavailable { reason }) => assert_eq!("no such file", reason),
        _ => panic!("a failed catalog must fail every query"),
    }
    let mut bad = ApplicationListInfo::empty();
    bad.serviceCont = Some(3);
    assert!(matches!(
        s.application_list(&bad),
        Err(LcmpError::CatalogUnavailable { .. })
    ));
    assert_eq!(Err("no such file".to_string()), s.status());
}

#[test]
fn malformed_query_is_refused() {
    let s = two_entry_catalog();
    let mut bad = ApplicationListInfo::empty();
    bad.appName = Some(format!("ok,{}", "x".repeat(33)));
    match s.application_list(&bad) {
        Err(LcmpError::ValidationFailed { reasons }) => assert_eq!("invalid query", reasons),
        _ => panic!("a malformed query must be refused"),
    }
    let empty = StaticApplicationListServer::empty();
    assert!(empty.application_list(&ApplicationListInfo::empty()).ok().unwrap().appList.is_empty());
}

#[test]
fn criteria_split_at_every_comma() {
    let info = query(Some("app1,,app2,"), None);
    assert_eq!(
        vec!["app1".to_string(), "".to_string(), "app2".to_string(), "".to_string()],
        info.app_names()
    );
    assert!(info.app_providers().is_empty());
    assert_eq!(vec!["".to_string()], split_at_commas(""));
    assert_eq!(vec!["é".to_string(), "ü".to_string()], split_at_commas("é,ü"));
}

#[test]
fn table_resolver_falls_back_to_its_default() {
    let table = ReferenceUriResolver::Table {
        mapping: vec![
            ReferenceUriMapByAppDIdElem { appdid: "a".to_string(), reference_uri: "ua".to_string() },
            ReferenceUriMapByAppDIdElem { appdid: "a".to_string(), reference_uri: "ua2".to_string() },
        ],
        default_uri: Some("D".to_string()),
    };
    assert_eq!("ua2", table.resolve(&Some("a".to_string())).ok().unwrap());
    assert_eq!("D", table.resolve(&Some("unknown".to_string())).ok().unwrap());
    assert_eq!("D", table.resolve(&None).ok().unwrap());
    let strict = ReferenceUriResolver::Table { mapping: vec![], default_uri: None };
    match strict.resolve(&Some("unknown".to_string())) {
        Err(LcmpError::ResolutionFailed { app_d_id }) => assert_eq!(Some("unknown".to_string()), app_d_id),
        _ => panic!("an unknown descriptor must not resolve without a default"),
    }
    let single = ReferenceUriResolver::Single { uri: "S".to_string() };
    assert_eq!("S", single.resolve(&Some("anything".to_string())).ok().unwrap());
}

#[test]
fn settings_strings_select_the_variants() {
    match build_app_context_server("single;10,URI") {
        Ok(AppContextServerSource::Ready(s)) => assert_eq!(0, s.len()),
        _ => panic!("a single-URI store is described"),
    }
    match build_app_context_server("file;mapping.json") {
        Ok(AppContextServerSource::File(name)) => assert_eq!("mapping.json", name),
        _ => panic!("a file is named"),
    }
    assert!(build_app_context_server("file;").is_err());
    assert!(build_app_context_server("file;single;").is_err());
    assert!(build_app_context_server("xsingle;1,u").is_err());
    match build_application_list_server("static;file=catalog.json") {
        Ok(ApplicationListSource::File(name)) => assert_eq!("catalog.json", name),
        _ => panic!("a file is named"),
    }
    assert!(matches!(build_application_list_server("empty"), Ok(ApplicationListSource::Empty)));
    assert_eq!(
        Err("could not create the ApplicationListServer".to_string()),
        build_application_list_server("xstatic;file=a").map(|_| ())
    );
}

#[test]
fn numbers_parse_as_std_parses_them() {
    assert_eq!(Some(10), parse_usize("10"));
    assert_eq!(Some(7), parse_usize("+7"));
    assert_eq!(Some(0), parse_usize("000"));
    assert_eq!(None, parse_usize(""));
    assert_eq!(None, parse_usize("+"));
    assert_eq!(None, parse_usize("-1"));
    assert_eq!(None, parse_usize("1a"));
    assert_eq!(Some(usize::MAX), parse_usize(&usize::MAX.to_string()));
    assert_eq!(None, parse_usize("99999999999999999999999"));
    assert_eq!("4294967295", decimal_text(4294967295));
    assert_eq!("0", decimal_text(0));
}
