//! The application-context store: admission-controlled creation, reading,
//! update of the callback reference, deletion and listing of contexts.
use crate::error::LcmpError;
use crate::ids::{is_simple_uuid, random_id};
use crate::messages::{
    same_except_callback, AppContext, AppContextModel, AppInfoContextModel, UserAppInstanceInfo,
    UserAppInstanceInfoModel,
};
use crate::resolver::{ReferenceUriMapByAppDIdElem, ReferenceUriResolver, SimpleAppContextServerConf};
use crate::validate::request_problem;
use vstd::prelude::*;

verus! {

/// Whether some context of `s` has the identifier `k`.
pub open spec fn has_id(s: Seq<AppContextModel>, k: Seq<char>) -> bool {
    exists|i: int| 0 <= i < s.len() && #[trigger] s[i].contextId == Some(k)
}

/// Every context has an identifier, and no two share one.
pub open spec fn ids_distinct(s: Seq<AppContextModel>) -> bool {
    &&& forall|i: int| 0 <= i < s.len() ==> (#[trigger] s[i]).contextId is Some
    &&& forall|i: int, j: int|
        0 <= i < s.len() && 0 <= j < s.len() && i != j ==> (#[trigger] s[i]).contextId != (
        #[trigger] s[j]).contextId
}

/// The identifier of a stored context.
pub open spec fn id_of(c: AppContextModel) -> Seq<char> {
    c.contextId->Some_0
}

/// The contexts of a list keyed by their identifiers.
pub open spec fn context_map(s: Seq<AppContextModel>) -> Map<Seq<char>, AppContextModel>
    decreases s.len(),
{
    if s.len() == 0 {
        Map::empty()
    } else {
        context_map(s.drop_last()).insert(id_of(s.last()), s.last())
    }
}

proof fn lemma_distinct_prefix(s: Seq<AppContextModel>)
    requires
        ids_distinct(s),
        s.len() > 0,
    ensures
        ids_distinct(s.drop_last()),
        !has_id(s.drop_last(), id_of(s.last())),
{
    let p = s.drop_last();
    assert forall|i: int, j: int|
        0 <= i < p.len() && 0 <= j < p.len() && i != j implies (#[trigger] p[i]).contextId != (
        #[trigger] p[j]).contextId by {
        assert(p[i] == s[i] && p[j] == s[j]);
    }
    if has_id(p, id_of(s.last())) {
        let i = choose|i: int| 0 <= i < p.len() && #[trigger] p[i].contextId == Some(id_of(s.last()));
        assert(s[i].contextId == s[s.len() - 1].contextId);
    }
}

/// Over distinct identifiers, the map holds each context under its own
/// identifier and has as many entries as the list.
pub proof fn lemma_context_map(s: Seq<AppContextModel>)
    requires
        ids_distinct(s),
    ensures
        context_map(s).dom().finite(),
        context_map(s).len() == s.len(),
        forall|k: Seq<char>|
            #![trigger context_map(s).contains_key(k)]
            #![trigger has_id(s, k)]
            context_map(s).contains_key(k) <==> has_id(s, k),
        forall|i: int| 0 <= i < s.len() ==> context_map(s)[id_of(#[trigger] s[i])] == s[i],
    decreases s.len(),
{
    if s.len() > 0 {
        let p = s.drop_last();
        lemma_distinct_prefix(s);
        lemma_context_map(p);
        let k = id_of(s.last());
        assert forall|q: Seq<char>| context_map(s).contains_key(q) <==> has_id(s, q) by {
            if has_id(s, q) {
                let i = choose|i: int| 0 <= i < s.len() && #[trigger] s[i].contextId == Some(q);
                if i < s.len() - 1 {
                    assert(p[i].contextId == Some(q));
                }
            }
            if context_map(p).contains_key(q) {
                let i = choose|i: int| 0 <= i < p.len() && #[trigger] p[i].contextId == Some(q);
                assert(s[i].contextId == Some(q));
            }
            if q == k {
                assert(s[s.len() - 1].contextId == Some(q));
            }
        }
        assert forall|i: int| 0 <= i < s.len() implies context_map(s)[id_of(#[trigger] s[i])]
            == s[i] by {
            if i < s.len() - 1 {
                assert(p[i] == s[i]);
                assert(s[i].contextId != s[s.len() - 1].contextId);
            }
        }
    }
}

/// Removing a context removes its identifier from the map.
pub proof fn lemma_context_map_remove(s: Seq<AppContextModel>, i: int)
    requires
        ids_distinct(s),
        0 <= i < s.len(),
    ensures
        ids_distinct(s.remove(i)),
        context_map(s.remove(i)) == context_map(s).remove(id_of(s[i])),
{
    let t = s.remove(i);
    assert forall|a: int| 0 <= a < t.len() implies #[trigger] t[a] == s[if a < i {
        a
    } else {
        a + 1
    }] by {}
    assert forall|a: int, b: int|
        0 <= a < t.len() && 0 <= b < t.len() && a != b implies (#[trigger] t[a]).contextId != (
        #[trigger] t[b]).contextId by {
        let a1 = if a < i { a } else { a + 1 };
        let b1 = if b < i { b } else { b + 1 };
        assert(t[a] == s[a1] && t[b] == s[b1]);
    }
    assert forall|a: int| 0 <= a < t.len() implies (#[trigger] t[a]).contextId is Some by {
        let a1 = if a < i { a } else { a + 1 };
        assert(t[a] == s[a1]);
    }
    lemma_context_map(s);
    lemma_context_map(t);
    let k = id_of(s[i]);
    assert forall|q: Seq<char>| #[trigger]
        context_map(t).contains_key(q) <==> context_map(s).remove(k).contains_key(q) by {
        if has_id(t, q) {
            let a = choose|a: int| 0 <= a < t.len() && #[trigger] t[a].contextId == Some(q);
            let a1 = if a < i { a } else { a + 1 };
            assert(s[a1].contextId == Some(q));
            assert(s[a1].contextId != s[i].contextId);
        }
        if has_id(s, q) && q != k {
            let a = choose|a: int| 0 <= a < s.len() && #[trigger] s[a].contextId == Some(q);
            assert(a != i);
            let a1 = if a < i { a } else { a - 1 };
            assert(t[a1].contextId == Some(q));
        }
    }
    assert forall|q: Seq<char>| #[trigger] context_map(t).contains_key(q) implies context_map(t)[q]
        == context_map(s)[q] by {
        let a = choose|a: int| 0 <= a < t.len() && #[trigger] t[a].contextId == Some(q);
        let a1 = if a < i { a } else { a + 1 };
        assert(t[a] == s[a1]);
        assert(id_of(t[a]) == q);
    }
    assert(context_map(t) =~= context_map(s).remove(k));
}

/// Replacing a context by one with the same identifier replaces it in the map.
pub proof fn lemma_context_map_update(s: Seq<AppContextModel>, i: int, x: AppContextModel)
    requires
        ids_distinct(s),
        0 <= i < s.len(),
        x.contextId == s[i].contextId,
    ensures
        ids_distinct(s.update(i, x)),
        context_map(s.update(i, x)) == context_map(s).insert(id_of(s[i]), x),
{
    let t = s.update(i, x);
    assert forall|a: int, b: int|
        0 <= a < t.len() && 0 <= b < t.len() && a != b implies (#[trigger] t[a]).contextId != (
        #[trigger] t[b]).contextId by {
        assert(t[a].contextId == s[a].contextId && t[b].contextId == s[b].contextId);
    }
    assert forall|a: int| 0 <= a < t.len() implies (#[trigger] t[a]).contextId is Some by {
        assert(t[a].contextId == s[a].contextId);
    }
    lemma_context_map(s);
    lemma_context_map(t);
    let k = id_of(s[i]);
    assert forall|q: Seq<char>| #[trigger]
        context_map(t).contains_key(q) <==> context_map(s).insert(k, x).contains_key(q) by {
        if has_id(t, q) {
            let a = choose|a: int| 0 <= a < t.len() && #[trigger] t[a].contextId == Some(q);
            assert(s[a].contextId == Some(q));
        }
        if has_id(s, q) {
            let a = choose|a: int| 0 <= a < s.len() && #[trigger] s[a].contextId == Some(q);
            assert(t[a].contextId == Some(q));
        }
        if q == k {
            assert(t[i].contextId == Some(q));
        }
    }
    assert forall|q: Seq<char>| #[trigger] context_map(t).contains_key(q) implies context_map(t)[q]
        == context_map(s).insert(k, x)[q] by {
        let a = choose|a: int| 0 <= a < t.len() && #[trigger] t[a].contextId == Some(q);
        assert(id_of(t[a]) == q);
        if a != i {
            assert(t[a] == s[a]);
            assert(s[a].contextId != s[i].contextId);
        }
    }
    assert(context_map(t) =~= context_map(s).insert(k, x));
}

/// Appending a context with a new identifier adds it to the map.
pub proof fn lemma_context_map_push(s: Seq<AppContextModel>, x: AppContextModel)
    requires
        ids_distinct(s),
        x.contextId is Some,
        !has_id(s, id_of(x)),
    ensures
        ids_distinct(s.push(x)),
        context_map(s.push(x)) == context_map(s).insert(id_of(x), x),
{
    let t = s.push(x);
    assert(t.drop_last() =~= s);
    assert forall|a: int, b: int|
        0 <= a < t.len() && 0 <= b < t.len() && a != b implies (#[trigger] t[a]).contextId != (
        #[trigger] t[b]).contextId by {
        if a < s.len() && b < s.len() {
            assert(t[a] == s[a] && t[b] == s[b]);
        } else if a < s.len() {
            assert(t[a] == s[a]);
        } else if b < s.len() {
            assert(t[b] == s[b]);
        }
    }
    assert forall|a: int| 0 <= a < t.len() implies (#[trigger] t[a]).contextId is Some by {
        if a < s.len() {
            assert(t[a] == s[a]);
        }
    }
}

/// A created context: the request with the assigned identifier and one
/// application instance reached at `uri`, with no location.
pub open spec fn created_context(
    request: AppContextModel,
    context_id: Seq<char>,
    app_instance_id: Seq<char>,
    uri: Seq<char>,
) -> AppContextModel {
    AppContextModel {
        contextId: Some(context_id),
        appInfo: AppInfoContextModel {
            userAppInstanceInfo: request.appInfo.userAppInstanceInfo.push(
                UserAppInstanceInfoModel {
                    appInstanceId: Some(app_instance_id),
                    referenceURI: Some(uri),
                    appLocation: None,
                },
            ),
            ..request.appInfo
        },
        ..request
    }
}

/// What one creation does to the contexts of a store bounded by `max`: a
/// success adds the created context under a new identifier to a store that
/// was not full; a failure changes nothing.
pub open spec fn creation_effect(
    before: Map<Seq<char>, AppContextModel>,
    max: nat,
    after: Map<Seq<char>, AppContextModel>,
    created: Option<AppContextModel>,
) -> bool {
    match created {
        Some(c) => {
            &&& before.len() < max
            &&& c.contextId is Some
            &&& !before.contains_key(id_of(c))
            &&& after == before.insert(id_of(c), c)
        },
        None => after == before,
    }
}

/// The stored context after an update request that differs from it in the
/// callback reference alone: it takes the request's callback reference.
pub open spec fn updated_context(stored: AppContextModel, request: AppContextModel) -> AppContextModel {
    AppContextModel { callbackReference: request.callbackReference, ..stored }
}

/// The contexts after an update request: the named context takes the
/// request's callback reference when the request equals it in every other
/// field; in every other case nothing changes.
pub open spec fn update_effect(
    before: Map<Seq<char>, AppContextModel>,
    request: AppContextModel,
) -> Map<Seq<char>, AppContextModel> {
    match request.contextId {
        Some(k) => if before.contains_key(k) && same_except_callback(before[k], request) {
            before.insert(k, updated_context(before[k], request))
        } else {
            before
        },
        None => before,
    }
}

/// An in-memory store of application contexts keyed by their identifiers,
/// holding at most `max_contexts` of them.
pub struct SimpleAppContextServer {
    max_contexts: usize,
    resolver: ReferenceUriResolver,
    app_contexts: Vec<AppContext>,
}

impl View for SimpleAppContextServer {
    type V = Map<Seq<char>, AppContextModel>;

    closed spec fn view(&self) -> Map<Seq<char>, AppContextModel> {
        context_map(self.app_contexts.deep_view())
    }
}

impl SimpleAppContextServer {
    /// Every stored context has an identifier, no two share one, and there
    /// are at most `max_contexts` of them.
    pub closed spec fn wf(&self) -> bool {
        &&& ids_distinct(self.app_contexts.deep_view())
        &&& self.app_contexts@.len() <= self.max_contexts
    }

    /// The bound on the number of active contexts.
    pub closed spec fn max_contexts(&self) -> nat {
        self.max_contexts as nat
    }

    /// How the store chooses reference URIs.
    pub closed spec fn resolver(&self) -> ReferenceUriResolver {
        self.resolver
    }

    /// An empty store with the given bound and resolver.
    pub fn with_resolver(max_contexts: usize, resolver: ReferenceUriResolver) -> (r: Self)
        ensures
            r.wf(),
            r@ == Map::<Seq<char>, AppContextModel>::empty(),
            r.max_contexts() == max_contexts,
            r.resolver() == resolver,
    {
        let r = SimpleAppContextServer { max_contexts, resolver, app_contexts: Vec::new() };
        assert(r.app_contexts.deep_view() =~= Seq::<AppContextModel>::empty());
        r
    }

    /// An empty store that gives every context the same reference URI.
    pub fn default_empty(max_contexts: usize, reference_uri: &str) -> (r: Self)
        ensures
            r.wf(),
            r@ == Map::<Seq<char>, AppContextModel>::empty(),
            r.max_contexts() == max_contexts,
            r.resolver() matches ReferenceUriResolver::Single { uri } && uri@ == reference_uri@,
    {
        Self::with_resolver(max_contexts, ReferenceUriResolver::Single { uri: reference_uri.to_string() })
    }

    /// An empty store that takes reference URIs from a table only.
    pub fn appdid_empty(max_contexts: usize, mapping: Vec<ReferenceUriMapByAppDIdElem>) -> (r: Self)
        ensures
            r.wf(),
            r@ == Map::<Seq<char>, AppContextModel>::empty(),
            r.max_contexts() == max_contexts,
            r.resolver() == (ReferenceUriResolver::Table { mapping, default_uri: None }),
    {
        Self::with_resolver(max_contexts, ReferenceUriResolver::Table { mapping, default_uri: None })
    }

    /// An empty store built from its settings: their bound and table.
    pub fn from_conf(conf: SimpleAppContextServerConf) -> (r: Self)
        ensures
            r.wf(),
            r@ == Map::<Seq<char>, AppContextModel>::empty(),
            r.max_contexts() == conf.max_contexts,
            r.resolver() == (ReferenceUriResolver::Table { mapping: conf.mapping, default_uri: None }),
    {
        Self::appdid_empty(conf.max_contexts, conf.mapping)
    }

    /// The position of the context with identifier `id`, if there is one.
    fn find_index(&self, id: &String) -> (r: Option<usize>)
        ensures
            r matches Some(i) ==> i < self.app_contexts@.len()
                && self.app_contexts.deep_view()[i as int].contextId == Some(id@),
            r is None ==> !has_id(self.app_contexts.deep_view(), id@),
    {
        let mut i: usize = 0;
        while i < self.app_contexts.len()
            invariant
                i <= self.app_contexts@.len(),
                forall|j: int|
                    0 <= j < i ==> (#[trigger] self.app_contexts.deep_view()[j]).contextId != Some(
                        id@,
                    ),
            decreases self.app_contexts@.len() - i,
        {
            if let Some(c) = &self.app_contexts[i].contextId {
                if c.eq(id) {
                    return Some(i);
                }
            }
            assert(self.app_contexts.deep_view()[i as int] == self.app_contexts@[i as int]@);
            i = i + 1;
        }
        None
    }

    /// A well-formed store holds finitely many contexts, at most its bound.
    pub proof fn lemma_bounded(&self)
        requires
            self.wf(),
        ensures
            self@.dom().finite(),
            self@.len() <= self.max_contexts(),
    {
        lemma_context_map(self.app_contexts.deep_view());
    }

    /// The number of active contexts, which never exceeds the bound.
    pub fn len(&self) -> (r: usize)
        requires
            self.wf(),
        ensures
            r == self@.len(),
            self@.dom().finite(),
            self@.len() <= self.max_contexts(),
    {
        proof {
            lemma_context_map(self.app_contexts.deep_view());
        }
        self.app_contexts.len()
    }

    /// Creates a context from `request` under the identifier `context_id`,
    /// with one application instance `app_instance_id` reached at the URI
    /// that the resolver gives for the request's descriptor identifier.
    /// Fails, in this order of checks, on a full store, on an invalid
    /// request, when no URI resolves and when `context_id` is already active.
    pub fn new_context_with_ids(
        &mut self,
        request: &AppContext,
        context_id: String,
        app_instance_id: String,
    ) -> (r: Result<AppContext, LcmpError>)
        requires
            old(self).wf(),
        ensures
            final(self).wf(),
            final(self).max_contexts() == old(self).max_contexts(),
            final(self).resolver() == old(self).resolver(),
            creation_effect(
                old(self)@,
                old(self).max_contexts(),
                final(self)@,
                match r {
                    Ok(c) => Some(c@),
                    Err(_) => None,
                },
            ),
            old(self)@.len() == old(self).max_contexts() ==> (r matches Err(
                LcmpError::CapacityExceeded { max_contexts },
            ) && max_contexts == old(self).max_contexts()),
            old(self)@.len() < old(self).max_contexts() ==> (request_problem(request@) matches Some(
                p,
            ) ==> (r matches Err(LcmpError::ValidationFailed { reasons }) && reasons@ == p)),
            old(self)@.len() < old(self).max_contexts() && request_problem(request@) is None
                && old(self).resolver().resolution(request@.appInfo.appDId) is None ==> (r matches Err(
                LcmpError::ResolutionFailed { app_d_id },
            ) && app_d_id.deep_view() == request@.appInfo.appDId),
            old(self)@.len() < old(self).max_contexts() && request_problem(request@) is None
                && old(self).resolver().resolution(request@.appInfo.appDId) is Some
                && old(self)@.contains_key(context_id@) ==> (r matches Err(
                LcmpError::ContextIdInUse { context_id: k },
            ) && k@ == context_id@),
            old(self)@.len() < old(self).max_contexts() && request_problem(request@) is None
                && !old(self)@.contains_key(context_id@) ==> (old(self).resolver().resolution(
                request@.appInfo.appDId,
            ) matches Some(uri) ==> (r matches Ok(c) && c@ == created_context(
                request@,
                context_id@,
                app_instance_id@,
                uri,
            ))),
    {
        proof {
            lemma_context_map(self.app_contexts.deep_view());
        }
        if self.app_contexts.len() == self.max_contexts {
            return Err(LcmpError::CapacityExceeded { max_contexts: self.max_contexts });
        }
        if let Err(reasons) = request.valid_request() {
            return Err(LcmpError::ValidationFailed { reasons });
        }
        let uri = match self.resolver.resolve(&request.appInfo.appDId) {
            Ok(u) => u,
            Err(e) => return Err(e),
        };
        if self.find_index(&context_id).is_some() {
            return Err(LcmpError::ContextIdInUse { context_id });
        }
        let mut context = request.clone();
        context.contextId = Some(context_id);
        let instance = UserAppInstanceInfo {
            appInstanceId: Some(app_instance_id),
            referenceURI: Some(uri),
            appLocation: None,
        };
        let ghost instance_view = instance@;
        context.appInfo.userAppInstanceInfo.push(instance);
        assert(context.appInfo.userAppInstanceInfo.deep_view()
            =~= request@.appInfo.userAppInstanceInfo.push(instance_view));
        let created = context.clone();
        proof {
            lemma_context_map_push(self.app_contexts.deep_view(), context@);
        }
        let ghost before = self.app_contexts.deep_view();
        self.app_contexts.push(context);
        proof {
            assert(self.app_contexts.deep_view() =~= before.push(context@));
        }
        Ok(created)
    }

    /// Creates a context from `request` under newly drawn context and
    /// application-instance identifiers; see `new_context_with_ids`.
    pub fn new_context(&mut self, request: &AppContext) -> (r: Result<AppContext, LcmpError>)
        requires
            old(self).wf(),
        ensures
            final(self).wf(),
            final(self).max_contexts() == old(self).max_contexts(),
            final(self).resolver() == old(self).resolver(),
            creation_effect(
                old(self)@,
                old(self).max_contexts(),
                final(self)@,
                match r {
                    Ok(c) => Some(c@),
                    Err(_) => None,
                },
            ),
            old(self)@.len() == old(self).max_contexts() ==> (r matches Err(
                LcmpError::CapacityExceeded { max_contexts },
            ) && max_contexts == old(self).max_contexts()),
            old(self)@.len() < old(self).max_contexts() ==> (request_problem(request@) matches Some(
                p,
            ) ==> (r matches Err(LcmpError::ValidationFailed { reasons }) && reasons@ == p)),
            old(self)@.len() < old(self).max_contexts() && request_problem(request@) is None
                && old(self).resolver().resolution(request@.appInfo.appDId) is None ==> (r matches Err(
                LcmpError::ResolutionFailed { app_d_id },
            ) && app_d_id.deep_view() == request@.appInfo.appDId),
            old(self)@.len() < old(self).max_contexts() && request_problem(request@) is None
                && old(self).resolver().resolution(request@.appInfo.appDId) is Some ==> (r is Ok || (
            r matches Err(LcmpError::ContextIdInUse { context_id: k }) && is_simple_uuid(k@) && old(
                self,
            )@.contains_key(k@))),
            r matches Ok(c) ==> (exists|context_id: Seq<char>, app_instance_id: Seq<char>|
                is_simple_uuid(context_id) && is_simple_uuid(app_instance_id) && (old(
                    self,
                ).resolver().resolution(request@.appInfo.appDId) matches Some(uri) && c@
                    == created_context(request@, context_id, app_instance_id, uri))),
    {
        let context_id = random_id();
        let app_instance_id = random_id();
        let ghost (cid, iid) = (context_id@, app_instance_id@);
        let r = self.new_context_with_ids(request, context_id, app_instance_id);
        proof {
            if r is Ok {
                assert(is_simple_uuid(cid) && is_simple_uuid(iid));
            }
        }
        r
    }


    /// The active context with identifier `context_id`.
    pub fn get_context(&self, context_id: &str) -> (r: Result<&AppContext, LcmpError>)
        requires
            self.wf(),
        ensures
            self@.contains_key(context_id@) ==> (r matches Ok(c) && c@ == self@[context_id@]),
            !self@.contains_key(context_id@) ==> (r matches Err(
                LcmpError::NotFound { context_id: k },
            ) && k@ == context_id@),
    {
        proof {
            lemma_context_map(self.app_contexts.deep_view());
        }
        let key = context_id.to_string();
        match self.find_index(&key) {
            Some(i) => {
                assert(self.app_contexts.deep_view()[i as int] == self.app_contexts@[i as int]@);
                Ok(&self.app_contexts[i])
            },
            None => Err(LcmpError::NotFound { context_id: key }),
        }
    }

    /// Deletes the active context with identifier `context_id`.
    pub fn del_context(&mut self, context_id: &str) -> (r: Result<(), LcmpError>)
        requires
            old(self).wf(),
        ensures
            final(self).wf(),
            final(self).max_contexts() == old(self).max_contexts(),
            final(self).resolver() == old(self).resolver(),
            final(self)@ == old(self)@.remove(context_id@),
            r is Ok <==> old(self)@.contains_key(context_id@),
            !old(self)@.contains_key(context_id@) ==> (r matches Err(
                LcmpError::NotFound { context_id: k },
            ) && k@ == context_id@) && final(self)@ == old(self)@,
    {
        proof {
            lemma_context_map(self.app_contexts.deep_view());
        }
        let key = context_id.to_string();
        match self.find_index(&key) {
            Some(i) => {
                proof {
                    lemma_context_map_remove(self.app_contexts.deep_view(), i as int);
                }
                let ghost before = self.app_contexts.deep_view();
                self.app_contexts.remove(i);
                assert(self.app_contexts.deep_view() =~= before.remove(i as int));
                Ok(())
            },
            None => {
                assert(self@ =~= self@.remove(context_id@));
                Err(LcmpError::NotFound { context_id: key })
            },
        }
    }

    /// Replaces the callback reference of the stored context that `request`
    /// names, when the request equals that context in every other field;
    /// otherwise changes nothing.
    pub fn update_context(&mut self, request: &AppContext) -> (r: Result<(), LcmpError>)
        requires
            old(self).wf(),
        ensures
            final(self).wf(),
            final(self).max_contexts() == old(self).max_contexts(),
            final(self).resolver() == old(self).resolver(),
            final(self)@ == update_effect(old(self)@, request@),
            r is Err ==> final(self)@ == old(self)@,
            request@.contextId is None ==> (r matches Err(LcmpError::ContextIdMissing)),
            request@.contextId matches Some(k) ==> {
                &&& !old(self)@.contains_key(k) ==> (r matches Err(
                    LcmpError::NotFound { context_id },
                ) && context_id@ == k)
                &&& old(self)@.contains_key(k) && !same_except_callback(old(self)@[k], request@)
                    ==> (r matches Err(LcmpError::Conflict))
                &&& old(self)@.contains_key(k) && same_except_callback(old(self)@[k], request@)
                    ==> r is Ok && final(self)@ == old(self)@.insert(
                    k,
                    updated_context(old(self)@[k], request@),
                )
            },
    {
        proof {
            lemma_context_map(self.app_contexts.deep_view());
        }
        let key = match &request.contextId {
            Some(k) => k,
            None => return Err(LcmpError::ContextIdMissing),
        };
        let i = match self.find_index(key) {
            Some(i) => i,
            None => return Err(LcmpError::NotFound { context_id: key.clone() }),
        };
        assert(self.app_contexts.deep_view()[i as int] == self.app_contexts@[i as int]@);
        if !self.app_contexts[i].identical_except_callback_reference(request) {
            return Err(LcmpError::Conflict);
        }
        let mut stored = self.app_contexts[i].clone();
        stored.callbackReference = request.callbackReference.clone();
        proof {
            lemma_context_map_update(self.app_contexts.deep_view(), i as int, stored@);
        }
        let ghost before = self.app_contexts.deep_view();
        self.app_contexts.set(i, stored);
        assert(self.app_contexts.deep_view() =~= before.update(i as int, stored@));
        Ok(())
    }

    /// The identifiers of all active contexts, each once, in no particular
    /// order.
    pub fn list_contexts(&self) -> (r: Result<Vec<String>, LcmpError>)
        requires
            self.wf(),
        ensures
            r matches Ok(ids) && ids.deep_view().no_duplicates() && ids.deep_view().to_set()
                == self@.dom(),
    {
        proof {
            lemma_context_map(self.app_contexts.deep_view());
        }
        let ghost s = self.app_contexts.deep_view();
        let mut ids: Vec<String> = Vec::new();
        let mut i: usize = 0;
        while i < self.app_contexts.len()
            invariant
                self.wf(),
                s == self.app_contexts.deep_view(),
                i <= s.len(),
                ids.deep_view().len() == i,
                forall|j: int| 0 <= j < i ==> #[trigger] ids.deep_view()[j] == id_of(s[j]),
            decreases s.len() - i,
        {
            assert(s[i as int] == self.app_contexts@[i as int]@);
            let id = match &self.app_contexts[i].contextId {
                Some(c) => c.clone(),
                None => String::new(),
            };
            let ghost before = ids.deep_view();
            ids.push(id);
            assert(ids.deep_view() =~= before.push(id_of(s[i as int])));
            i = i + 1;
        }
        let ghost d = ids.deep_view();
        assert(d.no_duplicates()) by {
            assert forall|a: int, b: int| 0 <= a < d.len() && 0 <= b < d.len() && a != b implies d[a]
                != d[b] by {
                assert(s[a].contextId != s[b].contextId);
            }
        }
        assert(d.to_set() =~= self@.dom()) by {
            assert forall|k: Seq<char>| d.to_set().contains(k) implies self@.dom().contains(k) by {
                let a = choose|a: int| 0 <= a < d.len() && d[a] == k;
                assert(s[a].contextId == Some(k));
            }
            assert forall|k: Seq<char>| self@.dom().contains(k) implies d.to_set().contains(k) by {
                let a = choose|a: int| 0 <= a < s.len() && #[trigger] s[a].contextId == Some(k);
                assert(d[a] == k);
            }
        }
        Ok(ids)
    }

    /// Health of the store: always good, as it depends on nothing outside.
    pub fn status(&self) -> (r: Result<(), LcmpError>)
        ensures
            r is Ok,
    {
        Ok(())
    }
}

/// The number of contexts after the first `k` creations of a run that
/// starts from an empty store and in which each creation succeeds.
proof fn lemma_successful_run_prefix(
    stores: Seq<Map<Seq<char>, AppContextModel>>,
    created: Seq<Option<AppContextModel>>,
    max: nat,
    k: int,
)
    requires
        stores.len() == created.len() + 1,
        stores[0] == Map::<Seq<char>, AppContextModel>::empty(),
        forall|i: int|
            0 <= i < created.len() ==> creation_effect(
                stores[i],
                max,
                stores[i + 1],
                #[trigger] created[i],
            ),
        forall|i: int| 0 <= i < created.len() ==> (#[trigger] created[i]) is Some,
        0 <= k <= created.len(),
    ensures
        stores[k].dom().finite(),
        stores[k].len() == k,
    decreases k,
{
    if k > 0 {
        lemma_successful_run_prefix(stores, created, max, k - 1);
        let c = created[k - 1];
        assert(creation_effect(stores[k - 1], max, stores[k], c));
    }
}

/// Capacity: starting from an empty store bounded by `max`, after `max`
/// successful creations the store holds exactly `max` contexts, and any
/// further creation fails and leaves it as it is.
pub proof fn lemma_creations_fill_store(
    stores: Seq<Map<Seq<char>, AppContextModel>>,
    created: Seq<Option<AppContextModel>>,
    max: nat,
)
    requires
        stores.len() == created.len() + 1,
        created.len() == max,
        stores[0] == Map::<Seq<char>, AppContextModel>::empty(),
        forall|i: int|
            0 <= i < created.len() ==> creation_effect(
                stores[i],
                max,
                stores[i + 1],
                #[trigger] created[i],
            ),
        forall|i: int| 0 <= i < created.len() ==> (#[trigger] created[i]) is Some,
    ensures
        stores.last().len() == max,
        forall|after: Map<Seq<char>, AppContextModel>, c: Option<AppContextModel>|
            #[trigger] creation_effect(stores.last(), max, after, c) ==> c is None && after
                == stores.last(),
{
    lemma_successful_run_prefix(stores, created, max, max as int);
}

/// Deletion: once an identifier is deleted it is no longer found, and
/// deleting an identifier that is not active leaves the store as it is.
pub proof fn lemma_delete_then_get(contexts: Map<Seq<char>, AppContextModel>, id: Seq<char>)
    ensures
        !contexts.remove(id).contains_key(id),
        !contexts.contains_key(id) ==> contexts.remove(id) == contexts,
{
    if !contexts.contains_key(id) {
        assert(contexts.remove(id) =~= contexts);
    }
}

/// A rejected update: a request that differs from the stored context in a
/// field other than the callback reference changes nothing.
pub proof fn lemma_update_conflict_keeps_store(
    contexts: Map<Seq<char>, AppContextModel>,
    request: AppContextModel,
)
    requires
        request.contextId matches Some(k) && contexts.contains_key(k) && !same_except_callback(
            contexts[k],
            request,
        ),
    ensures
        update_effect(contexts, request) == contexts,
{
}

/// An accepted update: a request that differs from the stored context in
/// the callback reference alone leaves that context with the new callback
/// reference and every other field as it was, and the other contexts as
/// they were.
pub proof fn lemma_update_callback_only(
    contexts: Map<Seq<char>, AppContextModel>,
    request: AppContextModel,
)
    requires
        request.contextId matches Some(k) && contexts.contains_key(k) && same_except_callback(
            contexts[k],
            request,
        ),
    ensures
        ({
            let k = request.contextId->Some_0;
            let after = update_effect(contexts, request);
            &&& after.dom() == contexts.dom()
            &&& after[k] == request
            &&& after[k].callbackReference == request.callbackReference
            &&& same_except_callback(after[k], contexts[k])
            &&& forall|q: Seq<char>| #[trigger] contexts.contains_key(q) && q != k ==> after[q] == contexts[q]
        }),
{
    let k = request.contextId->Some_0;
    assert(update_effect(contexts, request).dom() =~= contexts.dom());
}

} // verus!
