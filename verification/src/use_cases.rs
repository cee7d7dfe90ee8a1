use vstd::prelude::*;

use crate::entities::create_company_from_request;
use crate::entities::create_country_from_request;
use crate::entities::Company;
use crate::entities::CompanyDto;
use crate::entities::Country;
use crate::requests::CreateCompanyRequest;
use crate::requests::CreateCountryRequest;
use crate::store::find_country;
use crate::store::get_by_id_post;
use crate::store::join_by_continent;
use crate::store::join_by_country;
use crate::store::list_query_post;
use crate::store::CompanyRepository;
use crate::store::CountryRepository;
use crate::store::StoreError;

verus! {

/// Creates a company from a request.  The seam the transport layer is wired
/// against; the contract lives on the production implementation.
pub trait CreateCompany {
    fn create(&mut self, request: &CreateCompanyRequest) -> Result<Company, StoreError>;
}

/// The production interactor: maps the request to an unpersisted entity and
/// delegates to the repository, which assigns identity and timestamps.
pub struct CreateCompanyImpl<R: CompanyRepository> {
    repository: R,
}

impl<R: CompanyRepository> CreateCompanyImpl<R> {
    /// The repository this interactor delegates to.
    pub closed spec fn repo(&self) -> R {
        self.repository
    }

    pub fn new(repository: R) -> (u: CreateCompanyImpl<R>)
        ensures
            u.repo() == repository,
    {
        CreateCompanyImpl { repository }
    }
}

impl<R: CompanyRepository> CreateCompany for CreateCompanyImpl<R> {
    /// On success the persisted entity carries the request's business fields
    /// unchanged, a generated 36-character identity, creation and update
    /// time stamped with the same instant, and no deletion mark; the row is
    /// appended to the store.  A store failure passes through unchanged.
    fn create(&mut self, request: &CreateCompanyRequest) -> (r: Result<Company, StoreError>)
        ensures
            final(self).repo().countries() == old(self).repo().countries(),
            final(self).repo().failure() == old(self).repo().failure(),
            match r {
                Ok(c) => {
                    &&& old(self).repo().failure() is None
                    &&& c.name@ == request.name@
                    &&& c.description@ == request.description@
                    &&& c.country_name@ == request.country_name@
                    &&& c.id@.len() == 36
                    &&& c.created_at is Some
                    &&& c.updated_at == c.created_at
                    &&& c.deleted_at is None
                    &&& final(self).repo().companies() == old(self).repo().companies().push(c)
                },
                Err(StoreError::NotFound) => false,
                Err(StoreError::Store(m)) => old(self).repo().failure() == Some(m@)
                    && final(self).repo().companies() == old(self).repo().companies(),
            },
    {
        let company_to_create = create_company_from_request(request);
        self.repository.create(company_to_create)
    }
}

/// Looks a company up by identity.  The seam the transport layer is wired
/// against; the contract lives on the production implementation.
pub trait GetCompanyByID {
    fn get_by_id(&self, id: &str) -> Result<Company, StoreError>;
}

/// The production interactor: delegates directly; the not-found outcome is
/// surfaced distinctly for the transport layer to recognize.
pub struct GetCompanyByIDImpl<R: CompanyRepository> {
    repository: R,
}

impl<R: CompanyRepository> GetCompanyByIDImpl<R> {
    /// The repository this interactor delegates to.
    pub closed spec fn repo(&self) -> R {
        self.repository
    }

    pub fn new(repository: R) -> (u: GetCompanyByIDImpl<R>)
        ensures
            u.repo() == repository,
    {
        GetCompanyByIDImpl { repository }
    }
}

impl<R: CompanyRepository> GetCompanyByID for GetCompanyByIDImpl<R> {
    /// Passes the repository outcome through unchanged.
    fn get_by_id(&self, id: &str) -> (r: Result<Company, StoreError>)
        ensures
            get_by_id_post(self.repo().companies(), self.repo().failure(), id@, r),
    {
        self.repository.get_by_id(id)
    }
}

/// Lists the companies of one country.  The seam the transport layer is
/// wired against; the contract lives on the production implementation.
pub trait GetCompaniesByCountry {
    fn get_by_country(&self, country_name: &str) -> Result<Vec<CompanyDto>, StoreError>;
}

/// The production interactor: delegates directly; an empty list is success,
/// not an error.
pub struct GetCompaniesByCountryImpl<R: CompanyRepository> {
    repository: R,
}

impl<R: CompanyRepository> GetCompaniesByCountryImpl<R> {
    /// The repository this interactor delegates to.
    pub closed spec fn repo(&self) -> R {
        self.repository
    }

    pub fn new(repository: R) -> (u: GetCompaniesByCountryImpl<R>)
        ensures
            u.repo() == repository,
    {
        GetCompaniesByCountryImpl { repository }
    }
}

impl<R: CompanyRepository> GetCompaniesByCountry for GetCompaniesByCountryImpl<R> {
    /// Passes the repository outcome through unchanged.
    fn get_by_country(&self, country_name: &str) -> (r: Result<Vec<CompanyDto>, StoreError>)
        ensures
            list_query_post(
                join_by_country(self.repo().companies(), self.repo().countries(), country_name@),
                self.repo().failure(),
                r,
            ),
    {
        self.repository.get_by_country(country_name)
    }
}

/// Lists the companies of one continent.  The seam the transport layer is
/// wired against; the contract lives on the production implementation.
pub trait GetCompaniesByContinent {
    fn get_by_continent(&self, continent_name: &str) -> Result<Vec<CompanyDto>, StoreError>;
}

/// The production interactor: delegates directly; an empty list is success,
/// not an error.
pub struct GetCompaniesByContinentImpl<R: CompanyRepository> {
    repository: R,
}

impl<R: CompanyRepository> GetCompaniesByContinentImpl<R> {
    /// The repository this interactor delegates to.
    pub closed spec fn repo(&self) -> R {
        self.repository
    }

    pub fn new(repository: R) -> (u: GetCompaniesByContinentImpl<R>)
        ensures
            u.repo() == repository,
    {
        GetCompaniesByContinentImpl { repository }
    }
}

impl<R: CompanyRepository> GetCompaniesByContinent for GetCompaniesByContinentImpl<R> {
    /// Passes the repository outcome through unchanged.
    fn get_by_continent(&self, continent_name: &str) -> (r: Result<Vec<CompanyDto>, StoreError>)
        ensures
            list_query_post(
                join_by_continent(
                    self.repo().companies(),
                    self.repo().countries(),
                    continent_name@,
                ),
                self.repo().failure(),
                r,
            ),
    {
        self.repository.get_by_continent(continent_name)
    }
}

/// Creates a country from a request.  The seam the transport layer is wired
/// against; the contract lives on the production implementation.
pub trait CreateCountry {
    fn create(&mut self, request: &CreateCountryRequest) -> Result<Country, StoreError>;
}

/// The production interactor: maps the request to the entity and delegates;
/// a country has no generated fields, so success returns it unchanged.
pub struct CreateCountryImpl<R: CountryRepository> {
    repository: R,
}

impl<R: CountryRepository> CreateCountryImpl<R> {
    /// The repository this interactor delegates to.
    pub closed spec fn repo(&self) -> R {
        self.repository
    }

    pub fn new(repository: R) -> (u: CreateCountryImpl<R>)
        ensures
            u.repo() == repository,
    {
        CreateCountryImpl { repository }
    }
}

impl<R: CountryRepository> CreateCountry for CreateCountryImpl<R> {
    /// On success the persisted country carries exactly the request's
    /// fields and is appended to the store; a duplicate name or a store
    /// failure comes back as a store error, unchanged.
    fn create(&mut self, request: &CreateCountryRequest) -> (r: Result<Country, StoreError>)
        ensures
            final(self).repo().failure() == old(self).repo().failure(),
            match r {
                Ok(c) => {
                    &&& old(self).repo().failure() is None
                    &&& find_country(old(self).repo().countries(), request.name@) is None
                    &&& c.name@ == request.name@
                    &&& c.continent@ == request.continent@
                    &&& final(self).repo().countries() == old(self).repo().countries().push(c)
                },
                Err(StoreError::NotFound) => false,
                Err(StoreError::Store(m)) => {
                    &&& (old(self).repo().failure() == Some(m@) || (old(self).repo().failure()
                        is None && find_country(old(self).repo().countries(), request.name@)
                        is Some))
                    &&& final(self).repo().countries() == old(self).repo().countries()
                },
            },
    {
        let country_to_create = create_country_from_request(request);
        self.repository.create(country_to_create)
    }
}

} // verus!
