use company_service::entities::create_company_from_request;
use company_service::entities::create_country_from_request;
use company_service::entities::Company;
use company_service::entities::Country;
use company_service::log_companies::LogCompany;
use company_service::log_companies::LogCompanyImpl;
use company_service::mem_store::MemStore;
use company_service::requests::CreateCompanyRequest;
use company_service::requests::CreateCountryRequest;
use company_service::save_company::SaveCompany;
use company_service::save_company::SaveCompanyImpl;
use company_service::store::StoreError;
use company_service::use_cases::CreateCompany;
use company_service::use_cases::CreateCompanyImpl;
use company_service::use_cases::CreateCountry;
use company_service::use_cases::CreateCountryImpl;
use company_service::use_cases::GetCompaniesByContinent;
use company_service::use_cases::GetCompaniesByContinentImpl;
use company_service::use_cases::GetCompaniesByCountry;
use company_service::use_cases::GetCompaniesByCountryImpl;
use company_service::use_cases::GetCompanyByID;
use company_service::use_cases::GetCompanyByIDImpl;

fn get_create_company_request_mock() -> CreateCompanyRequest {
    CreateCompanyRequest {
        name: "company_name".to_string(),
        description: "description".to_string(),
        country_name: "country_name".to_string(),
    }
}

fn get_create_country_request_mock() -> CreateCountryRequest {
    CreateCountryRequest {
        name: "Argentina".to_string(),
        continent: "South America".to_string(),
    }
}

fn get_mock_company(company_id: &str) -> Company {
    Company {
        id: company_id.to_string(),
        name: "name".to_string(),
        description: "description".to_string(),
        country_name: "Argentina".to_string(),
        created_at: Some(1_700_000_000_000_000),
        updated_at: Some(1_700_000_000_000_000),
        deleted_at: None,
    }
}

fn failing_store() -> MemStore {
    let mut store = MemStore::new();
    store.set_failure("other error".to_string());
    store
}

#[test]
fn create_company_test_test_create_company_succesfully() {
    let request = get_create_company_request_mock();
    let company_expected = create_company_from_request(&request);
    let mut usecase = CreateCompanyImpl::new(MemStore::new());

    let company_created = usecase.create(&request);

    assert!(!company_created.is_err());
    assert_eq!(company_expected.name, company_created.unwrap().name);
}

#[test]
fn create_company_test_test_get_company_by_id_from_repository_and_fails_because_random_error_on_repository(
) {
    let request = get_create_company_request_mock();
    let mut usecase = CreateCompanyImpl::new(failing_store());

    let company_created = usecase.create(&request);

    assert!(company_created.is_err());
}

#[test]
fn test_get_company_by_continent_from_repository_succesfully() {
    let continent_name = "Europe";
    let store = MemStore {
        companies: vec![get_mock_company("3fa85f64-5717-4562-b3fc-2c963f66afa6")],
        countries: vec![Country {
            name: "Argentina".to_string(),
            continent: "Europe".to_string(),
        }],
        fail_with: None,
    };
    let usecase = GetCompaniesByContinentImpl::new(store);

    let companies = usecase.get_by_continent(continent_name).unwrap();

    assert_eq!(companies[0].continent_name, continent_name);
}

#[test]
fn test_get_company_by_continent_from_repository_and_fails_because_random_error_on_repository() {
    let usecase = GetCompaniesByContinentImpl::new(failing_store());

    let companies = usecase.get_by_continent("Europe");

    assert!(companies.is_err());
}

#[test]
fn test_get_company_by_country_from_repository_succesfully() {
    let country_name = "Argentina";
    let store = MemStore {
        companies: vec![get_mock_company("3fa85f64-5717-4562-b3fc-2c963f66afa6")],
        countries: vec![Country {
            name: "Argentina".to_string(),
            continent: "South America".to_string(),
        }],
        fail_with: None,
    };
    let usecase = GetCompaniesByCountryImpl::new(store);

    let companies = usecase.get_by_country(country_name).unwrap();

    assert_eq!(companies[0].country_name, country_name);
}

#[test]
fn test_get_company_by_country_from_repository_and_fails_because_random_error_on_repository() {
    let usecase = GetCompaniesByCountryImpl::new(failing_store());

    let companies = usecase.get_by_country("Argentina");

    assert!(companies.is_err());
}

#[test]
fn test_get_company_by_id_from_repository_succesfully() {
    let company_id = "3fa85f64-5717-4562-b3fc-2c963f66afa6";
    let company_expected = get_mock_company(company_id);
    let store = MemStore {
        companies: vec![get_mock_company(company_id)],
        countries: Vec::new(),
        fail_with: None,
    };
    let usecase = GetCompanyByIDImpl::new(store);

    let company = usecase.get_by_id(company_id).unwrap();

    assert_eq!(company_expected.id, company.id);
    assert_eq!(company_expected.country_name, company.country_name)
}

#[test]
fn get_company_by_id_test_test_get_company_by_id_from_repository_and_fails_because_random_error_on_repository(
) {
    let usecase = GetCompanyByIDImpl::new(failing_store());

    let result = usecase.get_by_id("3fa85f64-5717-4562-b3fc-2c963f66afa6");

    assert!(result.is_err());
}

#[test]
fn create_country_test_test_create_company_succesfully() {
    let request = get_create_country_request_mock();
    let company_expected = create_country_from_request(&request);
    let mut usecase = CreateCountryImpl::new(MemStore::new());

    let company_created = usecase.create(&request);

    assert!(!company_created.is_err());
    assert_eq!(company_expected.name, company_created.unwrap().name);
}

#[test]
fn create_country_test_test_get_company_by_id_from_repository_and_fails_because_random_error_on_repository(
) {
    let request = get_create_country_request_mock();
    let mut usecase = CreateCountryImpl::new(failing_store());

    let company_created = usecase.create(&request);

    assert!(company_created.is_err());
}

#[test]
fn test_before_create_assigns_identity_and_timestamps() {
    let request = get_create_company_request_mock();
    let mut company = create_company_from_request(&request);

    company.before_create();

    assert_eq!(company.id.len(), 36);
    assert_ne!(company.id, "00000000-0000-0000-0000-000000000000");
    assert_eq!(company.name, "company_name");
    assert_eq!(company.description, "description");
    assert_eq!(company.country_name, "country_name");
    assert!(company.created_at.is_some());
    assert_eq!(company.created_at, company.updated_at);
    assert!(company.deleted_at.is_none());
}

#[test]
fn test_two_creations_get_distinct_identities() {
    let request = get_create_company_request_mock();
    let mut first = create_company_from_request(&request);
    let mut second = create_company_from_request(&request);

    first.before_create();
    second.before_create();

    assert_ne!(first.id, second.id);
}

#[test]
fn test_duplicate_country_name_is_store_error() {
    let request = CreateCountryRequest {
        name: "Japon".to_string(),
        continent: "Asia".to_string(),
    };
    let mut usecase = CreateCountryImpl::new(MemStore::new());

    let first = usecase.create(&request);
    let second = usecase.create(&request);

    assert!(first.is_ok());
    assert!(second.is_err());
    match second.unwrap_err() {
        StoreError::Store(message) => {
            assert_eq!(message, "duplicate country name: Japon");
        }
        StoreError::NotFound => panic!("a duplicate name is a store error, not a lookup miss"),
    }
}

#[test]
fn test_get_by_country_zero_matches_returns_empty_list() {
    let store = MemStore {
        companies: Vec::new(),
        countries: vec![Country {
            name: "Argentina".to_string(),
            continent: "South America".to_string(),
        }],
        fail_with: None,
    };
    let usecase = GetCompaniesByCountryImpl::new(store);

    let companies = usecase.get_by_country("Argentina").unwrap();

    assert!(companies.is_empty());
}

#[test]
fn test_soft_deleted_companies_are_filtered_out() {
    let company_id = "3fa85f64-5717-4562-b3fc-2c963f66afa6";
    let mut deleted = get_mock_company(company_id);
    deleted.deleted_at = Some(1_700_000_100_000_000);
    let store = MemStore {
        companies: vec![deleted],
        countries: vec![Country {
            name: "Argentina".to_string(),
            continent: "South America".to_string(),
        }],
        fail_with: None,
    };

    let by_id = GetCompanyByIDImpl::new(store).get_by_id(company_id);
    assert!(matches!(by_id, Err(StoreError::NotFound)));
}

#[test]
fn test_log_companies_by_country_reports_rows() {
    let company_id = "3fa85f64-5717-4562-b3fc-2c963f66afa6";
    let mut company = get_mock_company(company_id);
    company.created_at = None;
    company.updated_at = None;
    let store = MemStore {
        companies: vec![company],
        countries: vec![Country {
            name: "Argentina".to_string(),
            continent: "South America".to_string(),
        }],
        fail_with: None,
    };
    let usecase = LogCompanyImpl::new(store);

    let lines = usecase.log_companies_by_country("Argentina".to_string());

    assert_eq!(lines.len(), 8);
    assert_eq!(lines[0], "----- loguin 1 companies");
    assert_eq!(lines[1], format!("id: {}", company_id));
    assert_eq!(lines[2], "name: name");
    assert_eq!(lines[3], "description: description");
    assert_eq!(lines[4], "country_name: Argentina");
    assert_eq!(lines[5], "created_at: no data");
    assert_eq!(lines[6], "updated_at: no data");
    assert_eq!(lines[7], "deleted_at: no data");
}

#[test]
fn test_log_companies_by_country_reports_failure_and_continues() {
    let usecase = LogCompanyImpl::new(failing_store());

    let lines = usecase.log_companies_by_country("Argentina".to_string());

    assert_eq!(lines.len(), 1);
    assert_eq!(
        lines[0],
        "error getting companies by country_name: Argentina, error: other error"
    );
}

#[test]
fn test_log_companies_by_country_empty_result_is_no_failure() {
    let usecase = LogCompanyImpl::new(MemStore::new());

    let lines = usecase.log_companies_by_country("Argentina".to_string());

    assert_eq!(lines.len(), 1);
    assert_eq!(lines[0], "----- loguin 0 companies");
}

#[test]
fn test_save_company_dumps_request() {
    let request = get_create_company_request_mock();
    let usecase = SaveCompanyImpl::new();

    let lines = usecase.save(&request);

    assert_eq!(lines.len(), 3);
    assert_eq!(lines[0], "name: company_name");
    assert_eq!(lines[1], "description: description");
    assert_eq!(lines[2], "country: country_name");
}
