use vstd::prelude::*;

use crate::entities::Company;
use crate::entities::CompanyDto;
use crate::entities::Country;

verus! {

/// The two failure classes a repository surfaces: a single-row lookup that
/// matched nothing, and every other store-reported failure (duplicate key,
/// broken connection, pool exhaustion), carrying its diagnostic text.
#[derive(Debug)]
pub enum StoreError {
    NotFound,
    Store(String),
}

impl StoreError {
    /// The diagnostic text of the failure.
    pub open spec fn message_view(&self) -> Seq<char> {
        match self {
            StoreError::NotFound => "not found"@,
            StoreError::Store(m) => m@,
        }
    }

    pub fn message(&self) -> (r: String)
        ensures
            r@ == self.message_view(),
    {
        match self {
            StoreError::NotFound => String::from_str("not found"),
            StoreError::Store(m) => m.clone(),
        }
    }
}

/// A record that has not been soft-deleted; every read operation filters on
/// this.
pub open spec fn active(c: Company) -> bool {
    c.deleted_at is None
}

/// The first active company with the given identity: what the single-row
/// select filtered by identity and null deleted_at returns.
pub open spec fn first_active(companies: Seq<Company>, id: Seq<char>) -> Option<Company>
    decreases companies.len(),
{
    if companies.len() == 0 {
        None
    } else if active(companies[0]) && companies[0].id@ == id {
        Some(companies[0])
    } else {
        first_active(companies.drop_first(), id)
    }
}

/// The first country with the given name.  The name is a natural key, so
/// under the uniqueness invariant this is the only one.
pub open spec fn find_country(countries: Seq<Country>, name: Seq<char>) -> Option<Country>
    decreases countries.len(),
{
    if countries.len() == 0 {
        None
    } else if countries[0].name@ == name {
        Some(countries[0])
    } else {
        find_country(countries.drop_first(), name)
    }
}

/// No two countries share a name: the natural-key invariant of the countries
/// table.
pub open spec fn unique_country_names(countries: Seq<Country>) -> bool {
    forall|i: int, j: int|
        0 <= i < j < countries.len() ==> countries[i].name@ != countries[j].name@
}

/// The projection of a company joined with the continent of its country.
pub open spec fn dto_of(c: Company, continent: String) -> CompanyDto {
    CompanyDto {
        id: c.id,
        name: c.name,
        description: c.description,
        created_at: c.created_at,
        updated_at: c.updated_at,
        deleted_at: c.deleted_at,
        country_name: c.country_name,
        continent_name: continent,
    }
}

/// The rows of the companies-by-country query: the active companies whose
/// country reference equals `name`, inner-joined with that country, in store
/// order.
pub open spec fn join_by_country(
    companies: Seq<Company>,
    countries: Seq<Country>,
    name: Seq<char>,
) -> Seq<CompanyDto>
    decreases companies.len(),
{
    if companies.len() == 0 {
        Seq::<CompanyDto>::empty()
    } else {
        let rest = join_by_country(companies.drop_first(), countries, name);
        let c = companies[0];
        if active(c) && c.country_name@ == name {
            match find_country(countries, c.country_name@) {
                Some(k) => seq![dto_of(c, k.continent)] + rest,
                None => rest,
            }
        } else {
            rest
        }
    }
}

/// The rows of the companies-by-continent query: the active companies whose
/// country lies on `continent`, inner-joined with that country, in store
/// order.
pub open spec fn join_by_continent(
    companies: Seq<Company>,
    countries: Seq<Country>,
    continent: Seq<char>,
) -> Seq<CompanyDto>
    decreases companies.len(),
{
    if companies.len() == 0 {
        Seq::<CompanyDto>::empty()
    } else {
        let rest = join_by_continent(companies.drop_first(), countries, continent);
        let c = companies[0];
        if active(c) {
            match find_country(countries, c.country_name@) {
                Some(k) => if k.continent@ == continent {
                    seq![dto_of(c, k.continent)] + rest
                } else {
                    rest
                },
                None => rest,
            }
        } else {
            rest
        }
    }
}

/// The row that one company contributes to the companies-by-country query.
pub open spec fn country_row(c: Company, countries: Seq<Country>, name: Seq<char>) -> Seq<
    CompanyDto,
> {
    if active(c) && c.country_name@ == name {
        match find_country(countries, c.country_name@) {
            Some(k) => seq![dto_of(c, k.continent)],
            None => Seq::<CompanyDto>::empty(),
        }
    } else {
        Seq::<CompanyDto>::empty()
    }
}

/// The row that one company contributes to the companies-by-continent query.
pub open spec fn continent_row(c: Company, countries: Seq<Country>, continent: Seq<char>) -> Seq<
    CompanyDto,
> {
    if active(c) {
        match find_country(countries, c.country_name@) {
            Some(k) => if k.continent@ == continent {
                seq![dto_of(c, k.continent)]
            } else {
                Seq::<CompanyDto>::empty()
            },
            None => Seq::<CompanyDto>::empty(),
        }
    } else {
        Seq::<CompanyDto>::empty()
    }
}

pub proof fn lemma_join_by_country_snoc(
    companies: Seq<Company>,
    countries: Seq<Country>,
    name: Seq<char>,
    c: Company,
)
    ensures
        join_by_country(companies.push(c), countries, name) == join_by_country(
            companies,
            countries,
            name,
        ) + country_row(c, countries, name),
    decreases companies.len(),
{
    let t = companies.push(c);
    if companies.len() == 0 {
        assert(t[0] == c);
        assert(t.drop_first() =~= Seq::<Company>::empty());
        assert(join_by_country(t.drop_first(), countries, name) =~= Seq::<CompanyDto>::empty());
        assert(join_by_country(t, countries, name) =~= country_row(c, countries, name));
        assert(join_by_country(companies, countries, name) + country_row(c, countries, name)
            =~= country_row(c, countries, name));
    } else {
        assert(t[0] == companies[0]);
        assert(t.drop_first() =~= companies.drop_first().push(c));
        lemma_join_by_country_snoc(companies.drop_first(), countries, name, c);
        assert(join_by_country(t, countries, name) =~= join_by_country(companies, countries, name)
            + country_row(c, countries, name));
    }
}

pub proof fn lemma_join_by_continent_snoc(
    companies: Seq<Company>,
    countries: Seq<Country>,
    continent: Seq<char>,
    c: Company,
)
    ensures
        join_by_continent(companies.push(c), countries, continent) == join_by_continent(
            companies,
            countries,
            continent,
        ) + continent_row(c, countries, continent),
    decreases companies.len(),
{
    let t = companies.push(c);
    if companies.len() == 0 {
        assert(t[0] == c);
        assert(t.drop_first() =~= Seq::<Company>::empty());
        assert(join_by_continent(t.drop_first(), countries, continent) =~= Seq::<
            CompanyDto,
        >::empty());
        assert(join_by_continent(t, countries, continent) =~= continent_row(
            c,
            countries,
            continent,
        ));
        assert(join_by_continent(companies, countries, continent) + continent_row(
            c,
            countries,
            continent,
        ) =~= continent_row(c, countries, continent));
    } else {
        assert(t[0] == companies[0]);
        assert(t.drop_first() =~= companies.drop_first().push(c));
        lemma_join_by_continent_snoc(companies.drop_first(), countries, continent, c);
        assert(join_by_continent(t, countries, continent) =~= join_by_continent(
            companies,
            countries,
            continent,
        ) + continent_row(c, countries, continent));
    }
}

/// The contract of a lookup by identity, over the store's model: a broken
/// store reports its failure message; otherwise the first active row with
/// the identity comes back, or the not-found outcome when there is none.
pub open spec fn get_by_id_post(
    companies: Seq<Company>,
    failure: Option<Seq<char>>,
    id: Seq<char>,
    r: Result<Company, StoreError>,
) -> bool {
    match r {
        Ok(c) => failure is None && first_active(companies, id) == Some(c),
        Err(StoreError::NotFound) => failure is None && first_active(companies, id) is None,
        Err(StoreError::Store(m)) => failure == Some(m@),
    }
}

/// The contract of a list query: a broken store reports its failure message;
/// otherwise exactly the expected rows come back — an empty list is success,
/// never an error.
pub open spec fn list_query_post(
    expected: Seq<CompanyDto>,
    failure: Option<Seq<char>>,
    r: Result<Vec<CompanyDto>, StoreError>,
) -> bool {
    match r {
        Ok(v) => failure is None && v@ == expected,
        Err(StoreError::NotFound) => false,
        Err(StoreError::Store(m)) => failure == Some(m@),
    }
}

/// A freshly persisted company: the business fields of the input, an
/// assigned 36-character identity, creation and update time stamped with the
/// same instant, no deletion mark.
pub open spec fn created_company(c: Company, input: Company) -> bool {
    &&& c.name == input.name
    &&& c.description == input.description
    &&& c.country_name == input.country_name
    &&& c.id@.len() == 36
    &&& c.created_at is Some
    &&& c.updated_at == c.created_at
    &&& c.deleted_at is None
}

/// The contract of a company insert: a broken store reports its failure and
/// leaves the table alone; otherwise the persisted row is appended and
/// returned.
pub open spec fn create_company_post(
    pre: Seq<Company>,
    post: Seq<Company>,
    failure: Option<Seq<char>>,
    input: Company,
    r: Result<Company, StoreError>,
) -> bool {
    match r {
        Ok(c) => failure is None && created_company(c, input) && post == pre.push(c),
        Err(StoreError::NotFound) => false,
        Err(StoreError::Store(m)) => failure == Some(m@) && post == pre,
    }
}

/// The contract of a country insert: a broken store reports its failure; a
/// duplicate name is a store error too (the natural key); otherwise the
/// country is appended unchanged and returned.
pub open spec fn create_country_post(
    pre: Seq<Country>,
    post: Seq<Country>,
    failure: Option<Seq<char>>,
    input: Country,
    r: Result<Country, StoreError>,
) -> bool {
    match r {
        Ok(c) => failure is None && find_country(pre, input.name@) is None && c == input
            && post == pre.push(c),
        Err(StoreError::NotFound) => false,
        Err(StoreError::Store(m)) => (failure == Some(m@) || (failure is None && find_country(
            pre,
            input.name@,
        ) is Some)) && post == pre,
    }
}

/// Persistence operations for companies.  An implementation is modelled by
/// the two tables its queries read and by an optional connection failure
/// that every call would report.
pub trait CompanyRepository: Sized {
    /// The companies table, in insertion order.
    spec fn companies(&self) -> Seq<Company>;

    /// The countries table that the joined queries read.
    spec fn countries(&self) -> Seq<Country>;

    /// The failure message every call reports while the store is broken.
    spec fn failure(&self) -> Option<Seq<char>>;

    /// Single-row lookup by identity, filtered on null deleted_at.
    fn get_by_id(&self, id: &str) -> (r: Result<Company, StoreError>)
        ensures
            get_by_id_post(self.companies(), self.failure(), id@, r),
    ;

    /// The company/country join restricted to one country name.
    fn get_by_country(&self, country_name: &str) -> (r: Result<Vec<CompanyDto>, StoreError>)
        ensures
            list_query_post(
                join_by_country(self.companies(), self.countries(), country_name@),
                self.failure(),
                r,
            ),
    ;

    /// The company/country join restricted to one continent.
    fn get_by_continent(&self, continent_name: &str) -> (r: Result<Vec<CompanyDto>, StoreError>)
        ensures
            list_query_post(
                join_by_continent(self.companies(), self.countries(), continent_name@),
                self.failure(),
                r,
            ),
    ;

    /// Runs `before_create` on the entity exactly once, then performs the
    /// single insert.  The repository is the sole authority that assigns the
    /// identity.
    fn create(&mut self, company: Company) -> (r: Result<Company, StoreError>)
        ensures
            create_company_post(
                old(self).companies(),
                final(self).companies(),
                old(self).failure(),
                company,
                r,
            ),
            final(self).countries() == old(self).countries(),
            final(self).failure() == old(self).failure(),
    ;
}

/// Persistence operations for countries.
pub trait CountryRepository: Sized {
    /// The countries table, in insertion order.
    spec fn countries(&self) -> Seq<Country>;

    /// The failure message every call reports while the store is broken.
    spec fn failure(&self) -> Option<Seq<char>>;

    /// Inserts the country; a duplicate name is refused by the natural key.
    fn create(&mut self, country: Country) -> (r: Result<Country, StoreError>)
        ensures
            create_country_post(
                old(self).countries(),
                final(self).countries(),
                old(self).failure(),
                country,
                r,
            ),
            final(self).failure() == old(self).failure(),
    ;
}

} // verus!
