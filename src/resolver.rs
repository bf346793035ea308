//! The reference-URI resolver: maps an application descriptor identifier to
//! the URI of the endpoint that a device application is to reach.
use crate::error::LcmpError;
use vstd::prelude::*;

verus! {

/// One row of a resolver table.
pub struct ReferenceUriMapByAppDIdElem {
    pub appdid: String,
    pub reference_uri: String,
}

impl View for ReferenceUriMapByAppDIdElem {
    type V = (Seq<char>, Seq<char>);

    open spec fn view(&self) -> (Seq<char>, Seq<char>) {
        (self.appdid@, self.reference_uri@)
    }
}

impl DeepView for ReferenceUriMapByAppDIdElem {
    type V = (Seq<char>, Seq<char>);

    open spec fn deep_view(&self) -> (Seq<char>, Seq<char>) {
        self@
    }
}

/// Settings of a context store whose resolver is a table: its bound and the
/// table's rows.
pub struct SimpleAppContextServerConf {
    pub max_contexts: usize,
    pub mapping: Vec<ReferenceUriMapByAppDIdElem>,
}

/// The URI that a table gives to `app_d_id`: that of its last row for this
/// identifier, as when the rows are inserted into a map one after the other.
pub open spec fn table_lookup(rows: Seq<(Seq<char>, Seq<char>)>, app_d_id: Seq<char>) -> Option<
    Seq<char>,
>
    decreases rows.len(),
{
    if rows.len() == 0 {
        None
    } else if rows.last().0 == app_d_id {
        Some(rows.last().1)
    } else {
        table_lookup(rows.drop_last(), app_d_id)
    }
}

/// How reference URIs are chosen.
pub enum ReferenceUriResolver {
    /// The same URI for every request.
    Single { uri: String },
    /// A URI by descriptor identifier, with an optional fallback used when
    /// the identifier is unspecified or absent from the table.
    Table { mapping: Vec<ReferenceUriMapByAppDIdElem>, default_uri: Option<String> },
}

impl ReferenceUriResolver {
    /// The URI resolved for an optional descriptor identifier, if there is one.
    pub open spec fn resolution(&self, app_d_id: Option<Seq<char>>) -> Option<Seq<char>> {
        match self {
            ReferenceUriResolver::Single { uri } => Some(uri@),
            ReferenceUriResolver::Table { mapping, default_uri } => {
                let found = match app_d_id {
                    Some(id) => table_lookup(mapping.deep_view(), id),
                    None => None,
                };
                match found {
                    Some(u) => Some(u),
                    None => default_uri.deep_view(),
                }
            },
        }
    }

    /// Resolves the reference URI of an optional descriptor identifier;
    /// fails, naming the identifier, when there is none.
    pub fn resolve(&self, app_d_id: &Option<String>) -> (r: Result<String, LcmpError>)
        ensures
            self.resolution(app_d_id.deep_view()) matches Some(u) ==> (r matches Ok(s) && s@ == u),
            self.resolution(app_d_id.deep_view()) is None ==> (r matches Err(
                LcmpError::ResolutionFailed { app_d_id: a },
            ) && a.deep_view() == app_d_id.deep_view()),
    {
        match self {
            ReferenceUriResolver::Single { uri } => Ok(uri.clone()),
            ReferenceUriResolver::Table { mapping, default_uri } => {
                if let Some(id) = app_d_id {
                    let mut i: usize = mapping.len();
                    assert(mapping.deep_view().take(i as int) =~= mapping.deep_view());
                    while i > 0
                        invariant
                            i <= mapping@.len(),
                            app_d_id.deep_view() == Some(id@),
                            self.resolution(app_d_id.deep_view()) == match table_lookup(
                                mapping.deep_view(),
                                id@,
                            ) {
                                Some(u) => Some(u),
                                None => default_uri.deep_view(),
                            },
                            table_lookup(mapping.deep_view(), id@) == table_lookup(
                                mapping.deep_view().take(i as int),
                                id@,
                            ),
                        decreases i,
                    {
                        let row = &mapping[i - 1];
                        assert(mapping.deep_view().take(i as int).drop_last()
                            =~= mapping.deep_view().take(i as int - 1));
                        assert(mapping.deep_view().take(i as int).last() == row@);
                        if row.appdid.eq(id) {
                            return Ok(row.reference_uri.clone());
                        }
                        i = i - 1;
                    }
                    assert(mapping.deep_view().take(0) =~= Seq::<(Seq<char>, Seq<char>)>::empty());
                }
                match default_uri {
                    Some(u) => Ok(u.clone()),
                    None => Err(LcmpError::ResolutionFailed { app_d_id: app_d_id.clone() }),
                }
            },
        }
    }
}

/// Fallback: in table mode, an identifier that is unspecified or absent from
/// the table resolves to the default URI when there is one, and to nothing
/// otherwise; an identifier in the table resolves to its row's URI.
pub proof fn lemma_table_fallback(
    mapping: Vec<ReferenceUriMapByAppDIdElem>,
    default_uri: Option<String>,
    app_d_id: Option<Seq<char>>,
)
    ensures
        ({
            let r = ReferenceUriResolver::Table { mapping, default_uri };
            let found = match app_d_id {
                Some(id) => table_lookup(mapping.deep_view(), id),
                None => None,
            };
            &&& found is None ==> r.resolution(app_d_id) == default_uri.deep_view()
            &&& found matches Some(u) ==> r.resolution(app_d_id) == Some(u)
        }),
{
}

} // verus!
