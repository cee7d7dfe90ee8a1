use vstd::prelude::*;

use crate::entities::CompanyDto;
use crate::json::dec_digits;
use crate::store::join_by_country;
use crate::json::write_dec_u64;
use crate::store::CompanyRepository;
use crate::store::StoreError;
use crate::strutil::views_of;

verus! {

/// Names what chrono renders for an instant given as microseconds since the
/// Unix epoch: its RFC 3339 form, a function of the value alone.
pub uninterp spec fn rfc3339_of(micros: i64) -> Seq<char>;

/// Relies on chrono's `DateTime::from_timestamp_micros` and `to_rfc3339`:
/// the RFC 3339 rendering of the instant, which depends on the value alone.
/// The few values outside chrono's representable range render empty.
#[verifier::external_body]
fn format_rfc3339(micros: i64) -> (r: String)
    ensures
        r@ == rfc3339_of(micros),
{
    match chrono::DateTime::from_timestamp_micros(micros) {
        Some(d) => d.to_rfc3339(),
        None => String::new(),
    }
}

/// The log rendering of an optional timestamp.
pub open spec fn date_string(date: Option<i64>) -> Seq<char> {
    match date {
        Some(d) => rfc3339_of(d),
        None => "no data"@,
    }
}

/// The log rendering of an optional timestamp: its RFC 3339 form, or a
/// placeholder when the column is empty.
pub fn get_date_as_string(date: Option<i64>) -> (r: String)
    ensures
        r@ == date_string(date),
{
    match date {
        Some(d) => format_rfc3339(d),
        None => String::from_str("no data"),
    }
}

/// The dump of one joined projection: one line per field.
pub open spec fn company_dump_lines(d: CompanyDto) -> Seq<Seq<char>> {
    seq![
        "id: "@ + d.id@,
        "name: "@ + d.name@,
        "description: "@ + d.description@,
        "country_name: "@ + d.country_name@,
        "created_at: "@ + date_string(d.created_at),
        "updated_at: "@ + date_string(d.updated_at),
        "deleted_at: "@ + date_string(d.deleted_at),
    ]
}

/// The dumps of a whole list, in order.
pub open spec fn dump_all(companies: Seq<CompanyDto>) -> Seq<Seq<char>>
    decreases companies.len(),
{
    if companies.len() == 0 {
        Seq::<Seq<char>>::empty()
    } else {
        company_dump_lines(companies[0]) + dump_all(companies.drop_first())
    }
}

pub proof fn lemma_dump_all_snoc(companies: Seq<CompanyDto>, d: CompanyDto)
    ensures
        dump_all(companies.push(d)) == dump_all(companies) + company_dump_lines(d),
    decreases companies.len(),
{
    let t = companies.push(d);
    if companies.len() == 0 {
        assert(t[0] == d);
        assert(t.drop_first() =~= Seq::<CompanyDto>::empty());
        assert(dump_all(t.drop_first()) =~= Seq::<Seq<char>>::empty());
        assert(dump_all(t) =~= company_dump_lines(d));
        assert(dump_all(companies) + company_dump_lines(d) =~= company_dump_lines(d));
    } else {
        assert(t[0] == companies[0]);
        assert(t.drop_first() =~= companies.drop_first().push(d));
        lemma_dump_all_snoc(companies.drop_first(), d);
        assert(dump_all(t) =~= dump_all(companies) + company_dump_lines(d));
    }
}

/// The human-readable report of one fetch: a count header and a dump per
/// company on success, a single line naming the failed lookup and the store's
/// message on failure — the failure is reported, never raised.
pub open spec fn log_report(
    country_name: Seq<char>,
    result: Result<Vec<CompanyDto>, StoreError>,
) -> Seq<Seq<char>> {
    match result {
        Ok(companies) => seq![
            "----- loguin "@ + dec_digits(companies@.len() as int) + " companies"@,
        ] + dump_all(companies@),
        Err(e) => seq![
            "error getting companies by country_name: "@ + country_name + ", error: "@
                + e.message_view(),
        ],
    }
}

/// Renders the report for one fetched result.  An empty list yields just the
/// header; a failure yields its report line.
pub fn company_log_lines(country_name: &str, result: &Result<Vec<CompanyDto>, StoreError>) -> (
    lines: Vec<String>)
    ensures
        views_of(lines@) == log_report(country_name@, *result),
{
    match result {
        Err(err) => {
            let mut line = String::from_str("error getting companies by country_name: ");
            line.append(country_name);
            line.append(", error: ");
            let message = err.message();
            line.append(message.as_str());
            let mut lines: Vec<String> = Vec::new();
            lines.push(line);
            proof {
                assert(views_of(lines@) =~= log_report(country_name@, *result));
            }
            lines
        },
        Ok(companies) => {
            let ghost header_view = "----- loguin "@ + dec_digits(companies@.len() as int)
                + " companies"@;
            let mut header = String::from_str("----- loguin ");
            write_dec_u64(&mut header, companies.len() as u64);
            header.append(" companies");
            let mut lines: Vec<String> = Vec::new();
            lines.push(header);
            let n = companies.len();
            let mut i: usize = 0;
            proof {
                assert(companies@.take(0) =~= Seq::<CompanyDto>::empty());
                assert(views_of(lines@) =~= seq![header_view] + dump_all(companies@.take(0)));
            }
            while i < n
                invariant
                    n == companies@.len(),
                    0 <= i <= n,
                    views_of(lines@) == seq![header_view] + dump_all(companies@.take(i as int)),
                decreases n - i,
            {
                let d = &companies[i];
                let ghost prev = lines@;
                let mut id_line = String::from_str("id: ");
                id_line.append(d.id.as_str());
                lines.push(id_line);
                let mut name_line = String::from_str("name: ");
                name_line.append(d.name.as_str());
                lines.push(name_line);
                let mut description_line = String::from_str("description: ");
                description_line.append(d.description.as_str());
                lines.push(description_line);
                let mut country_line = String::from_str("country_name: ");
                country_line.append(d.country_name.as_str());
                lines.push(country_line);
                let mut created_line = String::from_str("created_at: ");
                let created = get_date_as_string(d.created_at);
                created_line.append(created.as_str());
                lines.push(created_line);
                let mut updated_line = String::from_str("updated_at: ");
                let updated = get_date_as_string(d.updated_at);
                updated_line.append(updated.as_str());
                lines.push(updated_line);
                let mut deleted_line = String::from_str("deleted_at: ");
                let deleted = get_date_as_string(d.deleted_at);
                deleted_line.append(deleted.as_str());
                lines.push(deleted_line);
                proof {
                    lemma_dump_all_snoc(companies@.take(i as int), companies@[i as int]);
                    assert(companies@.take(i as int + 1) =~= companies@.take(i as int).push(
                        companies@[i as int],
                    ));
                    assert(views_of(lines@) =~= views_of(prev) + company_dump_lines(
                        companies@[i as int],
                    ));
                    assert(views_of(lines@) =~= seq![header_view] + dump_all(
                        companies@.take(i as int + 1),
                    ));
                }
                i = i + 1;
            }
            proof {
                assert(companies@.take(n as int) =~= companies@);
                assert(views_of(lines@) =~= log_report(country_name@, *result));
            }
            lines
        },
    }
}

/// Fetches the companies of one country and renders the human-readable
/// dump; the transport layer does the printing.
pub trait LogCompany {
    fn log_companies_by_country(&self, country_name: String) -> Vec<String>;
}

/// The production shape of the logging use case: one repository, one fetch,
/// one report.
pub struct LogCompanyImpl<R: CompanyRepository> {
    repository: R,
}

impl<R: CompanyRepository> LogCompanyImpl<R> {
    /// The repository this use case reads from.
    pub closed spec fn repo(&self) -> R {
        self.repository
    }

    pub fn new(repository: R) -> (u: LogCompanyImpl<R>)
        ensures
            u.repo() == repository,
    {
        LogCompanyImpl { repository }
    }
}

impl<R: CompanyRepository> LogCompany for LogCompanyImpl<R> {
    /// On a healthy store: the count header and one dump per joined row; on
    /// a broken store: its single report line.  Never an error, whatever
    /// came back.
    fn log_companies_by_country(&self, country_name: String) -> (lines: Vec<String>)
        ensures
            ({
                let expected = join_by_country(
                    self.repo().companies(),
                    self.repo().countries(),
                    country_name@,
                );
                match self.repo().failure() {
                    None => views_of(lines@) == seq![
                        "----- loguin "@ + dec_digits(expected.len() as int) + " companies"@,
                    ] + dump_all(expected),
                    Some(m) => views_of(lines@) == seq![
                        "error getting companies by country_name: "@ + country_name@
                            + ", error: "@ + m,
                    ],
                }
            }),
    {
        let companies = self.repository.get_by_country(country_name.as_str());
        company_log_lines(country_name.as_str(), &companies)
    }
}

} // verus!
