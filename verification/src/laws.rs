use vstd::prelude::*;

use crate::entities::Company;
use crate::entities::CompanyDto;
use crate::entities::Country;
use crate::json::json_string;
use crate::responses::companies_response_post;
use crate::responses::create_company_response_post;
use crate::responses::create_country_response_post;
use crate::responses::get_company_by_id_response_post;
use crate::responses::store_error_body;
use crate::responses::Response;
use crate::store::active;
use crate::store::create_company_post;
use crate::store::create_country_post;
use crate::store::find_country;
use crate::store::first_active;
use crate::store::get_by_id_post;
use crate::store::join_by_continent;
use crate::store::join_by_country;
use crate::store::list_query_post;
use crate::store::unique_country_names;
use crate::store::StoreError;

verus! {

/// Every row of the companies-by-country query carries exactly the queried
/// country name.
pub proof fn lemma_join_by_country_matches(
    companies: Seq<Company>,
    countries: Seq<Country>,
    name: Seq<char>,
)
    ensures
        forall|i: int|
            0 <= i < join_by_country(companies, countries, name).len() ==> (#[trigger] join_by_country(
                companies,
                countries,
                name,
            )[i]).country_name@ == name,
    decreases companies.len(),
{
    if companies.len() == 0 {
    } else {
        lemma_join_by_country_matches(companies.drop_first(), countries, name);
    }
}

/// Every row of the companies-by-continent query carries exactly the queried
/// continent name.
pub proof fn lemma_join_by_continent_matches(
    companies: Seq<Company>,
    countries: Seq<Country>,
    continent: Seq<char>,
)
    ensures
        forall|i: int|
            0 <= i < join_by_continent(companies, countries, continent).len() ==> (#[trigger] join_by_continent(
                companies,
                countries,
                continent,
            )[i]).continent_name@ == continent,
    decreases companies.len(),
{
    if companies.len() == 0 {
    } else {
        lemma_join_by_continent_matches(companies.drop_first(), countries, continent);
    }
}

/// A country name that no active company references yields an empty list —
/// an empty result, never an error.
pub proof fn lemma_join_by_country_empty(
    companies: Seq<Company>,
    countries: Seq<Country>,
    name: Seq<char>,
)
    requires
        forall|i: int|
            0 <= i < companies.len() ==> active(#[trigger] companies[i]) ==> companies[i].country_name@
                != name,
    ensures
        join_by_country(companies, countries, name).len() == 0,
    decreases companies.len(),
{
    if companies.len() == 0 {
    } else {
        assert(forall|i: int|
            0 <= i < companies.drop_first().len() ==> active(
                #[trigger] companies.drop_first()[i],
            ) ==> companies.drop_first()[i].country_name@ != name) by {
            assert(forall|i: int|
                0 <= i < companies.drop_first().len() ==> #[trigger] companies.drop_first()[i]
                    == companies[i + 1]);
        }
        lemma_join_by_country_empty(companies.drop_first(), countries, name);
    }
}

/// A continent that no active company's country lies on yields an empty
/// list — an empty result, never an error.
pub proof fn lemma_join_by_continent_empty(
    companies: Seq<Company>,
    countries: Seq<Country>,
    continent: Seq<char>,
)
    requires
        forall|i: int|
            0 <= i < companies.len() ==> active(#[trigger] companies[i]) ==> match find_country(
                countries,
                companies[i].country_name@,
            ) {
                Some(k) => k.continent@ != continent,
                None => true,
            },
    ensures
        join_by_continent(companies, countries, continent).len() == 0,
    decreases companies.len(),
{
    if companies.len() == 0 {
    } else {
        assert(forall|i: int|
            0 <= i < companies.drop_first().len() ==> #[trigger] companies.drop_first()[i]
                == companies[i + 1]);
        lemma_join_by_continent_empty(companies.drop_first(), countries, continent);
    }
}

/// A lookup of an identity with no active row yields the not-found outcome,
/// which the transport renders as 404 with the fixed body for that identity.
pub proof fn lemma_missing_company_renders_not_found(
    companies: Seq<Company>,
    failure: Option<Seq<char>>,
    id: Seq<char>,
    r: Result<Company, StoreError>,
    resp: Response,
)
    requires
        failure is None,
        first_active(companies, id) is None,
        get_by_id_post(companies, failure, id, r),
        get_company_by_id_response_post(id, r, resp),
    ensures
        r == Result::<Company, StoreError>::Err(StoreError::NotFound),
        resp.status == 404,
        resp.body@ == json_string("No company found by id: "@ + id),
{
}

/// A store failure during a lookup passes through the use-case outcome
/// unchanged and is rendered as 500 with the uniform error body.
pub proof fn lemma_get_by_id_failure_renders_500(
    companies: Seq<Company>,
    m: Seq<char>,
    id: Seq<char>,
    r: Result<Company, StoreError>,
    resp: Response,
)
    requires
        get_by_id_post(companies, Some(m), id, r),
        get_company_by_id_response_post(id, r, resp),
    ensures
        r matches Err(StoreError::Store(msg)) && msg@ == m,
        resp.status == 500,
        resp.body@ == store_error_body(m),
{
}

/// A store failure during a list query passes through unchanged and is
/// rendered as 500 with the uniform error body.
pub proof fn lemma_list_failure_renders_500(
    expected: Seq<CompanyDto>,
    m: Seq<char>,
    r: Result<Vec<CompanyDto>, StoreError>,
    resp: Response,
)
    requires
        list_query_post(expected, Some(m), r),
        companies_response_post(r, resp),
    ensures
        r matches Err(StoreError::Store(msg)) && msg@ == m,
        resp.status == 500,
        resp.body@ == store_error_body(m),
{
}

/// A store failure during a company insert passes through unchanged, leaves
/// the table alone, and is rendered as 500 with the uniform error body.
pub proof fn lemma_create_company_failure_renders_500(
    pre: Seq<Company>,
    post: Seq<Company>,
    m: Seq<char>,
    input: Company,
    r: Result<Company, StoreError>,
    resp: Response,
)
    requires
        create_company_post(pre, post, Some(m), input, r),
        create_company_response_post(r, resp),
    ensures
        r matches Err(StoreError::Store(msg)) && msg@ == m,
        post == pre,
        resp.status == 500,
        resp.body@ == store_error_body(m),
{
}

/// A store failure during a country insert passes through unchanged, leaves
/// the table alone, and is rendered as 500 with the uniform error body.
pub proof fn lemma_create_country_failure_renders_500(
    pre: Seq<Country>,
    post: Seq<Country>,
    m: Seq<char>,
    input: Country,
    r: Result<Country, StoreError>,
    resp: Response,
)
    requires
        create_country_post(pre, post, Some(m), input, r),
        create_country_response_post(r, resp),
    ensures
        r matches Err(StoreError::Store(msg)) && msg@ == m,
        post == pre,
        resp.status == 500,
        resp.body@ == store_error_body(m),
{
}

/// Behind a not-found result of `find_country` stands no row at all with
/// that name.
pub proof fn lemma_find_country_none(countries: Seq<Country>, name: Seq<char>)
    requires
        find_country(countries, name) is None,
    ensures
        forall|i: int| 0 <= i < countries.len() ==> (#[trigger] countries[i]).name@ != name,
    decreases countries.len(),
{
    if countries.len() == 0 {
    } else {
        lemma_find_country_none(countries.drop_first(), name);
        assert(forall|i: int|
            1 <= i < countries.len() ==> #[trigger] countries[i] == countries.drop_first()[i - 1]);
    }
}

/// The natural-key invariant is preserved: whatever a country insert did,
/// no two countries share a name afterwards, because a duplicate name is
/// refused.
pub proof fn lemma_create_country_keeps_uniqueness(
    pre: Seq<Country>,
    post: Seq<Country>,
    failure: Option<Seq<char>>,
    input: Country,
    r: Result<Country, StoreError>,
)
    requires
        unique_country_names(pre),
        create_country_post(pre, post, failure, input, r),
    ensures
        unique_country_names(post),
{
    match r {
        Ok(c) => {
            lemma_find_country_none(pre, input.name@);
            assert(forall|i: int|
                0 <= i < pre.len() ==> #[trigger] post[i] == pre[i]);
            assert(post[post.len() - 1] == c);
        },
        Err(_) => {
        },
    }
}

} // verus!
