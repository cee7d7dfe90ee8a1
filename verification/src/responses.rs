use vstd::prelude::*;

use crate::entities::Company;
use crate::entities::CompanyDto;
use crate::entities::Country;
use crate::json::dec_int;
use crate::json::json_string;
use crate::json::json_string_of;
use crate::json::write_dec_i64;
use crate::json::write_json_string;
use crate::store::StoreError;

verus! {

/// One HTTP response: status code and raw JSON body.
pub struct Response {
    pub status: u16,
    pub body: String,
}

/// The wire form of an optional timestamp: the microseconds, or null.
pub open spec fn opt_ts_json(t: Option<i64>) -> Seq<char> {
    match t {
        Some(v) => dec_int(v as int),
        None => "null"@,
    }
}

/// The serialized company, every field in declaration order.
pub open spec fn company_json(c: Company) -> Seq<char> {
    "{\"id\":"@ + json_string(c.id@) + ",\"name\":"@ + json_string(c.name@)
        + ",\"description\":"@ + json_string(c.description@) + ",\"country_name\":"@
        + json_string(c.country_name@) + ",\"created_at\":"@ + opt_ts_json(c.created_at)
        + ",\"updated_at\":"@ + opt_ts_json(c.updated_at) + ",\"deleted_at\":"@ + opt_ts_json(
        c.deleted_at,
    ) + "}"@
}

/// The serialized country.
pub open spec fn country_json(c: Country) -> Seq<char> {
    "{\"name\":"@ + json_string(c.name@) + ",\"continent\":"@ + json_string(c.continent@) + "}"@
}

/// The serialized projection: the timestamps ride along internally but stay
/// off the wire.
pub open spec fn dto_json(d: CompanyDto) -> Seq<char> {
    "{\"id\":"@ + json_string(d.id@) + ",\"name\":"@ + json_string(d.name@)
        + ",\"description\":"@ + json_string(d.description@) + ",\"country_name\":"@
        + json_string(d.country_name@) + ",\"continent_name\":"@ + json_string(d.continent_name@)
        + "}"@
}

/// The elements of a serialized list, comma-separated.
pub open spec fn dto_list_body(l: Seq<CompanyDto>) -> Seq<char>
    decreases l.len(),
{
    if l.len() == 0 {
        Seq::<char>::empty()
    } else if l.len() == 1 {
        dto_json(l[0])
    } else {
        dto_json(l[0]) + ","@ + dto_list_body(l.drop_first())
    }
}

/// The serialized list of projections.
pub open spec fn dto_list_json(l: Seq<CompanyDto>) -> Seq<char> {
    "["@ + dto_list_body(l) + "]"@
}

pub proof fn lemma_dto_list_body_snoc(l: Seq<CompanyDto>, d: CompanyDto)
    ensures
        dto_list_body(l.push(d)) == if l.len() == 0 {
            dto_json(d)
        } else {
            dto_list_body(l) + ","@ + dto_json(d)
        },
    decreases l.len(),
{
    let t = l.push(d);
    if l.len() == 0 {
        assert(t.len() == 1);
        assert(t[0] == d);
        assert(dto_list_body(t) == dto_json(d));
    } else {
        assert(t[0] == l[0]);
        assert(t.drop_first() =~= l.drop_first().push(d));
        lemma_dto_list_body_snoc(l.drop_first(), d);
        if l.len() == 1 {
            assert(l.drop_first().len() == 0);
            assert(dto_list_body(t) =~= dto_list_body(l) + ","@ + dto_json(d));
        } else {
            assert(dto_list_body(t) =~= dto_list_body(l) + ","@ + dto_json(d));
        }
    }
}

fn write_opt_ts(out: &mut String, t: Option<i64>)
    ensures
        final(out)@ == old(out)@ + opt_ts_json(t),
{
    match t {
        Some(v) => write_dec_i64(out, v),
        None => out.append("null"),
    }
}

/// Appends the serialized company.
pub fn write_company_json(out: &mut String, c: &Company)
    ensures
        final(out)@ == old(out)@ + company_json(*c),
{
    out.append("{\"id\":");
    write_json_string(out, c.id.as_str());
    out.append(",\"name\":");
    write_json_string(out, c.name.as_str());
    out.append(",\"description\":");
    write_json_string(out, c.description.as_str());
    out.append(",\"country_name\":");
    write_json_string(out, c.country_name.as_str());
    out.append(",\"created_at\":");
    write_opt_ts(out, c.created_at);
    out.append(",\"updated_at\":");
    write_opt_ts(out, c.updated_at);
    out.append(",\"deleted_at\":");
    write_opt_ts(out, c.deleted_at);
    out.append("}");
    proof {
        assert(final(out)@ =~= old(out)@ + company_json(*c));
    }
}

/// Appends the serialized country.
pub fn write_country_json(out: &mut String, c: &Country)
    ensures
        final(out)@ == old(out)@ + country_json(*c),
{
    out.append("{\"name\":");
    write_json_string(out, c.name.as_str());
    out.append(",\"continent\":");
    write_json_string(out, c.continent.as_str());
    out.append("}");
    proof {
        assert(final(out)@ =~= old(out)@ + country_json(*c));
    }
}

/// Appends the serialized projection.
pub fn write_dto_json(out: &mut String, d: &CompanyDto)
    ensures
        final(out)@ == old(out)@ + dto_json(*d),
{
    out.append("{\"id\":");
    write_json_string(out, d.id.as_str());
    out.append(",\"name\":");
    write_json_string(out, d.name.as_str());
    out.append(",\"description\":");
    write_json_string(out, d.description.as_str());
    out.append(",\"country_name\":");
    write_json_string(out, d.country_name.as_str());
    out.append(",\"continent_name\":");
    write_json_string(out, d.continent_name.as_str());
    out.append("}");
    proof {
        assert(final(out)@ =~= old(out)@ + dto_json(*d));
    }
}

/// The serialized list of projections; an empty list serializes as `[]`.
pub fn dto_list_json_of(list: &Vec<CompanyDto>) -> (r: String)
    ensures
        r@ == dto_list_json(list@),
{
    let mut out = String::from_str("[");
    let n = list.len();
    let mut i: usize = 0;
    proof {
        assert(list@.take(0) =~= Seq::<CompanyDto>::empty());
        assert(out@ =~= "["@ + dto_list_body(list@.take(0)));
    }
    while i < n
        invariant
            n == list@.len(),
            0 <= i <= n,
            out@ == "["@ + dto_list_body(list@.take(i as int)),
        decreases n - i,
    {
        if i > 0 {
            out.append(",");
        }
        write_dto_json(&mut out, &list[i]);
        proof {
            lemma_dto_list_body_snoc(list@.take(i as int), list@[i as int]);
            assert(list@.take(i as int + 1) =~= list@.take(i as int).push(list@[i as int]));
            assert(list@.take(i as int).len() == i as int);
            assert(out@ =~= "["@ + dto_list_body(list@.take(i as int + 1)));
        }
        i = i + 1;
    }
    proof {
        assert(list@.take(n as int) =~= list@);
    }
    out.append("]");
    proof {
        assert(out@ =~= dto_list_json(list@));
    }
    out
}

/// The uniform body of a 500 answer: the store's diagnostic behind the fixed
/// prefix, as one JSON string.
pub open spec fn store_error_body(message: Seq<char>) -> Seq<char> {
    json_string("error communicating with database: "@ + message)
}

fn store_error_response(e: &StoreError) -> (r: Response)
    ensures
        r.status == 500,
        r.body@ == store_error_body(e.message_view()),
{
    let mut text = String::from_str("error communicating with database: ");
    let message = e.message();
    text.append(message.as_str());
    let body = json_string_of(text.as_str());
    Response { status: 500, body }
}

/// What `POST /api/v1/company` answers for each use-case outcome.
pub open spec fn create_company_response_post(
    result: Result<Company, StoreError>,
    resp: Response,
) -> bool {
    match result {
        Ok(c) => resp.status == 200 && resp.body@ == company_json(c),
        Err(e) => resp.status == 500 && resp.body@ == store_error_body(e.message_view()),
    }
}

/// Maps the outcome of the create-company use case onto the wire: 200 with
/// the serialized entity, or 500 with the uniform error body.
pub fn create_company_response(result: &Result<Company, StoreError>) -> (r: Response)
    ensures
        create_company_response_post(*result, r),
{
    match result {
        Ok(company) => {
            let mut body = String::new();
            write_company_json(&mut body, company);
            proof {
                assert(body@ =~= company_json(*company));
            }
            Response { status: 200, body }
        },
        Err(e) => store_error_response(e),
    }
}

/// What `GET /api/v1/company/{id}` answers for each use-case outcome.
pub open spec fn get_company_by_id_response_post(
    id: Seq<char>,
    result: Result<Company, StoreError>,
    resp: Response,
) -> bool {
    match result {
        Ok(c) => resp.status == 200 && resp.body@ == company_json(c),
        Err(StoreError::NotFound) => resp.status == 404 && resp.body@ == json_string(
            "No company found by id: "@ + id,
        ),
        Err(StoreError::Store(m)) => resp.status == 500 && resp.body@ == store_error_body(m@),
    }
}

/// Maps the outcome of the lookup-by-identity use case onto the wire: 200
/// with the serialized entity, 404 with the fixed not-found line for the
/// identity, or 500 with the uniform error body.
pub fn get_company_by_id_response(id: &str, result: &Result<Company, StoreError>) -> (r: Response)
    ensures
        get_company_by_id_response_post(id@, *result, r),
{
    match result {
        Ok(company) => {
            let mut body = String::new();
            write_company_json(&mut body, company);
            proof {
                assert(body@ =~= company_json(*company));
            }
            Response { status: 200, body }
        },
        Err(StoreError::NotFound) => {
            let mut text = String::from_str("No company found by id: ");
            text.append(id);
            let body = json_string_of(text.as_str());
            Response { status: 404, body }
        },
        Err(e) => store_error_response(e),
    }
}

/// What the two list endpoints answer for each use-case outcome.
pub open spec fn companies_response_post(
    result: Result<Vec<CompanyDto>, StoreError>,
    resp: Response,
) -> bool {
    match result {
        Ok(list) => resp.status == 200 && resp.body@ == dto_list_json(list@),
        Err(e) => resp.status == 500 && resp.body@ == store_error_body(e.message_view()),
    }
}

/// Maps the outcome of a list query onto the wire: 200 with the serialized
/// list (possibly empty), or 500 with the uniform error body.
pub fn companies_response(result: &Result<Vec<CompanyDto>, StoreError>) -> (r: Response)
    ensures
        companies_response_post(*result, r),
{
    match result {
        Ok(list) => {
            let body = dto_list_json_of(list);
            Response { status: 200, body }
        },
        Err(e) => store_error_response(e),
    }
}

/// What `POST /api/v1/country` answers for each use-case outcome.
pub open spec fn create_country_response_post(
    result: Result<Country, StoreError>,
    resp: Response,
) -> bool {
    match result {
        Ok(c) => resp.status == 200 && resp.body@ == country_json(c),
        Err(e) => resp.status == 500 && resp.body@ == store_error_body(e.message_view()),
    }
}

/// Maps the outcome of the create-country use case onto the wire: 200 with
/// the serialized country, or 500 with the uniform error body.
pub fn create_country_response(result: &Result<Country, StoreError>) -> (r: Response)
    ensures
        create_country_response_post(*result, r),
{
    match result {
        Ok(country) => {
            let mut body = String::new();
            write_country_json(&mut body, country);
            proof {
                assert(body@ =~= country_json(*country));
            }
            Response { status: 200, body }
        },
        Err(e) => store_error_response(e),
    }
}

} // verus!
