use etsi_mec_qkd::contexts::SimpleAppContextServer;
use etsi_mec_qkd::error::LcmpError;
use etsi_mec_qkd::messages::AppContext;
use etsi_mec_qkd::resolver::{ReferenceUriMapByAppDIdElem, ReferenceUriResolver};
use std::collections::HashSet;

#[test]
fn test_simple_app_context_server() -> Result<(), LcmpError> {
    let mut s = SimpleAppContextServer::default_empty(10, "referenceURI");

    s.status()?;

    // add invalid app context: error
    let mut a = AppContext::request_from_name_provider("my_app_name", "my_app_provider");
    a.contextId = Some("not-empty-context-id".to_string());
    assert!(a.valid_request().is_err());
    assert!(s.new_context(&a).is_err());

    // now the app context is valid: add 10
    a.contextId = None;
    assert!(a.valid_request().is_ok());
    let mut all_contexts = HashSet::new();
    let mut all_instances = HashSet::new();
    for _i in 0..10 {
        let created = s.new_context(&a);
        assert!(created.is_ok());
        let created = created?;
        all_contexts.insert(created.contextId.clone());
        assert!(created.appInfo.userAppInstanceInfo.len() == 1);
        let info = created.appInfo.userAppInstanceInfo.first().unwrap();
        all_instances.insert(info.appInstanceId.clone());
        assert!(info.referenceURI.as_ref().unwrap() == "referenceURI");
        assert!(info.appLocation.is_none());

        // The request is left as it was, so it can be sent again.
        assert!(a.valid_request().is_ok());
    }
    assert!(all_contexts.len() == 10);
    assert!(all_instances.len() == 10);
    assert!(s.list_contexts().is_ok());
    assert!(s.list_contexts().unwrap().len() == 10);

    // get the app contexts one by one
    for elem in &all_contexts {
        if let Some(context_id) = elem {
            s.get_context(context_id.as_str())?;
        }
    }

    // fail to get a non-existing app context
    assert!(&s.get_context("not-a-valid-context-id").is_err());

    // adding the 11-th fails
    assert!(&s.new_context(&a).is_err());

    // delete one entry
    let a_context_id = all_contexts.iter().next().unwrap().clone().unwrap();
    s.del_context(a_context_id.as_str())?;
    assert!(s.list_contexts().is_ok());
    assert!(s.list_contexts().unwrap().len() == 9);

    // not getting that context fails, too
    assert!(&s.get_context(a_context_id.as_str()).is_err());

    // now it is possible to add a new one
    let mut a = s.new_context(&a)?;

    // update the entry
    let new_callback_reference = "new_callback_reference";
    a.callbackReference = Some(new_callback_reference.to_string());
    s.update_context(&a)?;
    if let Some(context_id) = &a.contextId {
        assert!(&s
            .get_context(context_id.as_str())
            .ok()
            .unwrap()
            .identical_except_callback_reference(&a));
        if let Some(x) = &s
            .get_context(context_id.as_str())
            .ok()
            .unwrap()
            .callbackReference
        {
            assert_eq!(x, new_callback_reference,);
        }
    }

    // try to update an entry with a non-matching AppContext
    let mut b = AppContext::request_from_name_provider("my_another_app_name", "my_app_provider");
    b.contextId = a.contextId.clone();
    if let Some(context_id) = &a.contextId {
        assert!(!&s
            .get_context(context_id.as_str())
            .ok()
            .unwrap()
            .identical_except_callback_reference(&b));
        assert!(&s.update_context(&b).is_err());
    }

    // cannot add another context
    a.contextId = None;
    a.appInfo.userAppInstanceInfo.clear();
    assert!(&s.new_context(&a).is_err());

    Ok(())
}

fn request() -> AppContext {
    AppContext::request_from_name_provider("app", "provider")
}

#[test]
fn store_of_bound_three_refuses_the_fourth_creation() {
    let mut s = SimpleAppContextServer::default_empty(3, "uri");
    for _ in 0..3 {
        assert!(s.new_context(&request()).is_ok());
    }
    assert_eq!(3, s.len());
    match s.new_context(&request()) {
        Err(LcmpError::CapacityExceeded { max_contexts }) => assert_eq!(3, max_contexts),
        _ => panic!("a full store must refuse the creation"),
    }
    assert_eq!(3, s.len());
    assert_eq!(3, s.list_contexts().unwrap().len());
}

#[test]
fn store_of_bound_zero_refuses_even_an_invalid_request() {
    let mut s = SimpleAppContextServer::default_empty(0, "uri");
    let mut r = request();
    r.contextId = Some("given".to_string());
    assert!(matches!(
        s.new_context(&r),
        Err(LcmpError::CapacityExceeded { max_contexts: 0 })
    ));
}

#[test]
fn invalid_request_is_refused_with_its_reasons() {
    let mut s = SimpleAppContextServer::default_empty(2, "uri");
    let mut r = request();
    r.contextId = Some("given".to_string());
    match s.new_context(&r) {
        Err(LcmpError::ValidationFailed { reasons }) => {
            assert_eq!("contextId cannot be present in a request AppContext", reasons)
        }
        _ => panic!("the request must be refused"),
    }
    assert_eq!(0, s.len());
}

#[test]
fn delete_then_get_fails_and_unknown_delete_changes_nothing() {
    let mut s = SimpleAppContextServer::default_empty(5, "uri");
    let created = s.new_context(&request()).unwrap();
    let kept = s.new_context(&request()).unwrap();
    let id = created.contextId.clone().unwrap();
    assert!(s.del_context(&id).is_ok());
    match s.get_context(&id) {
        Err(LcmpError::NotFound { context_id }) => assert_eq!(id, context_id),
        _ => panic!("a deleted context must not be found"),
    }
    assert_eq!(1, s.len());
    match s.del_context("unknown") {
        Err(LcmpError::NotFound { context_id }) => assert_eq!("unknown", context_id),
        _ => panic!("deleting an unknown context must fail"),
    }
    assert_eq!(1, s.len());
    assert!(s.get_context(kept.contextId.as_ref().unwrap()).is_ok());
}

#[test]
fn update_of_another_field_is_refused_and_changes_nothing() {
    let mut s = SimpleAppContextServer::default_empty(5, "uri");
    let created = s.new_context(&request()).unwrap();
    let id = created.contextId.clone().unwrap();
    let mut changed = created.clone();
    changed.appLocationUpdates = Some(true);
    changed.callbackReference = Some("cb".to_string());
    assert!(matches!(s.update_context(&changed), Err(LcmpError::Conflict)));
    let stored = s.get_context(&id).unwrap();
    assert!(stored.appInfo == created.appInfo);
    assert!(stored.identical_except_callback_reference(&created));
    assert_eq!(None, stored.callbackReference);
    assert_eq!(None, stored.appLocationUpdates);
}

#[test]
fn update_of_the_callback_alone_is_applied() {
    let mut s = SimpleAppContextServer::default_empty(5, "uri");
    let created = s.new_context(&request()).unwrap();
    let id = created.contextId.clone().unwrap();
    let mut changed = created.clone();
    changed.callbackReference = Some("http://device/notify".to_string());
    assert!(s.update_context(&changed).is_ok());
    let stored = s.get_context(&id).unwrap();
    assert_eq!(Some("http://device/notify".to_string()), stored.callbackReference);
    assert!(stored.identical_except_callback_reference(&created));
    assert!(stored.appInfo == created.appInfo);
    assert_eq!(created.associateDevAppId, stored.associateDevAppId);
}

#[test]
fn update_without_id_or_with_unknown_id_fails() {
    let mut s = SimpleAppContextServer::default_empty(5, "uri");
    assert!(matches!(s.update_context(&request()), Err(LcmpError::ContextIdMissing)));
    let mut r = request();
    r.contextId = Some("nope".to_string());
    match s.update_context(&r) {
        Err(LcmpError::NotFound { context_id }) => assert_eq!("nope", context_id),
        _ => panic!("an unknown context must not be updated"),
    }
}

#[test]
fn created_context_gets_drawn_ids_and_the_resolved_uri() {
    let mapping = vec![
        ReferenceUriMapByAppDIdElem { appdid: "d1".to_string(), reference_uri: "u1".to_string() },
        ReferenceUriMapByAppDIdElem { appdid: "d2".to_string(), reference_uri: "u2".to_string() },
    ];
    let mut s = SimpleAppContextServer::appdid_empty(4, mapping);
    let mut r = request();
    r.appInfo.appDId = Some("d2".to_string());
    let created = s.new_context(&r).unwrap();
    let id = created.contextId.clone().unwrap();
    assert_eq!(32, id.len());
    assert!(id.chars().all(|c| c.is_ascii_hexdigit() && !c.is_ascii_uppercase()));
    assert_eq!(Some("u2".to_string()), created.appInfo.userAppInstanceInfo[0].referenceURI);
    assert_eq!(32, created.appInfo.userAppInstanceInfo[0].appInstanceId.as_ref().unwrap().len());
    assert_eq!(r.associateDevAppId, created.associateDevAppId);
    r.appInfo.appDId = Some("d3".to_string());
    match s.new_context(&r) {
        Err(LcmpError::ResolutionFailed { app_d_id }) => assert_eq!(Some("d3".to_string()), app_d_id),
        _ => panic!("an unknown descriptor must not resolve"),
    }
    assert_eq!(1, s.len());
}

#[test]
fn creation_with_given_ids_refuses_an_active_id() {
    let mut s = SimpleAppContextServer::with_resolver(
        3,
        ReferenceUriResolver::Single { uri: "u".to_string() },
    );
    let c = s
        .new_context_with_ids(&request(), "ctx1".to_string(), "inst1".to_string())
        .unwrap();
    assert_eq!(Some("ctx1".to_string()), c.contextId);
    assert_eq!(Some("inst1".to_string()), c.appInfo.userAppInstanceInfo[0].appInstanceId);
    assert_eq!(Some("u".to_string()), c.appInfo.userAppInstanceInfo[0].referenceURI);
    match s.new_context_with_ids(&request(), "ctx1".to_string(), "inst2".to_string()) {
        Err(LcmpError::ContextIdInUse { context_id }) => assert_eq!("ctx1", context_id),
        _ => panic!("an active identifier must not be reused"),
    }
    assert_eq!(1, s.len());
    assert_eq!(vec!["ctx1".to_string()], s.list_contexts().unwrap());
}

#[test]
fn error_messages_describe_the_failure() {
    assert_eq!(
        "Maximum number of active contexts reached 10",
        LcmpError::CapacityExceeded { max_contexts: 10 }.message()
    );
    assert_eq!(
        "It was not possible to find a matching reference URI for AppDId: unspecified",
        LcmpError::ResolutionFailed { app_d_id: None }.message()
    );
    assert_eq!(
        "context ID not found: abc",
        LcmpError::NotFound { context_id: "abc".to_string() }.message()
    );
    assert_eq!("context ID not specified in the request", LcmpError::ContextIdMissing.message());
}

#[test]
fn creation_with_unknown_descriptor_uses_the_default_uri() {
    let mut s = SimpleAppContextServer::with_resolver(
        2,
        ReferenceUriResolver::Table {
            mapping: vec![ReferenceUriMapByAppDIdElem {
                appdid: "known".to_string(),
                reference_uri: "uk".to_string(),
            }],
            default_uri: Some("D".to_string()),
        },
    );
    let mut r = request();
    r.appInfo.appDId = Some("unknown".to_string());
    let created = s.new_context(&r).unwrap();
    assert_eq!(Some("D".to_string()), created.appInfo.userAppInstanceInfo[0].referenceURI);
    let id = created.contextId.clone().unwrap();
    let stored = s.get_context(&id).unwrap();
    assert!(stored.identical_except_callback_reference(&created));
    assert_eq!(created.callbackReference, stored.callbackReference);
    assert_eq!(1, s.len());
}
