use company_service::entities::create_company_from_request;
use company_service::entities::Company;
use company_service::entities::CompanyDto;
use company_service::entities::Country;
use company_service::mem_store::MemStore;
use company_service::requests::CreateCompanyRequest;
use company_service::requests::CreateCountryRequest;
use company_service::responses::companies_response;
use company_service::responses::create_company_response;
use company_service::responses::create_country_response;
use company_service::responses::get_company_by_id_response;
use company_service::store::StoreError;
use company_service::use_cases::CreateCompany;
use company_service::use_cases::CreateCompanyImpl;
use company_service::use_cases::CreateCountry;
use company_service::use_cases::CreateCountryImpl;
use company_service::use_cases::GetCompaniesByCountry;
use company_service::use_cases::GetCompaniesByCountryImpl;
use company_service::use_cases::GetCompanyByID;
use company_service::use_cases::GetCompanyByIDImpl;

fn create_company_request_mock() -> CreateCompanyRequest {
    CreateCompanyRequest {
        name: "company_name".to_string(),
        description: "description".to_string(),
        country_name: "country_name".to_string(),
    }
}

fn create_country_request_mock() -> CreateCountryRequest {
    CreateCountryRequest {
        name: "Japon".to_string(),
        continent: "Asia".to_string(),
    }
}

fn other_error() -> StoreError {
    StoreError::Store("other error".to_string())
}

fn create_companies_mock(country_name: &str, continent_name: &str) -> Vec<CompanyDto> {
    vec![CompanyDto {
        id: "00000000-0000-0000-0000-000000000000".to_string(),
        name: "company_name".to_string(),
        description: "description".to_string(),
        created_at: None,
        updated_at: None,
        deleted_at: None,
        country_name: country_name.to_string(),
        continent_name: continent_name.to_string(),
    }]
}

fn create_company_mock(id: &str) -> Company {
    Company {
        id: id.to_string(),
        name: "company_name".to_string(),
        description: "description".to_string(),
        country_name: "country_name".to_string(),
        created_at: None,
        updated_at: None,
        deleted_at: None,
    }
}

fn company_json_mock(id: &str) -> String {
    format!(
        "{{\"id\":\"{}\",\"name\":\"company_name\",\"description\":\"description\",\
         \"country_name\":\"country_name\",\"created_at\":null,\"updated_at\":null,\
         \"deleted_at\":null}}",
        id
    )
}

fn dto_list_json_mock(country_name: &str, continent_name: &str) -> String {
    format!(
        "[{{\"id\":\"00000000-0000-0000-0000-000000000000\",\"name\":\"company_name\",\
         \"description\":\"description\",\"country_name\":\"{}\",\"continent_name\":\"{}\"}}]",
        country_name, continent_name
    )
}

#[test]
fn test_company_successfully() {
    let request = create_company_request_mock();
    let result = Ok(create_company_from_request(&request));

    let response = create_company_response(&result);

    assert_eq!(response.status, 200);
    assert_eq!(
        response.body,
        company_json_mock("00000000-0000-0000-0000-000000000000")
    );
}

#[test]
fn test_create_company_fails() {
    let result: Result<Company, StoreError> = Err(other_error());

    let response = create_company_response(&result);

    assert_eq!(response.status, 500);
    assert_eq!(
        response.body,
        "\"error communicating with database: other error\""
    );
}

#[test]
fn test_get_companies_by_continent_successfully() {
    let result = Ok(create_companies_mock("country_name", "Asia"));

    let response = companies_response(&result);

    assert_eq!(response.status, 200);
    assert_eq!(response.body, dto_list_json_mock("country_name", "Asia"));
}

#[test]
fn test_get_companies_by_continent_return_no_companies() {
    let result: Result<Vec<CompanyDto>, StoreError> = Ok(Vec::new());

    let response = companies_response(&result);

    assert_eq!(response.status, 200);
    assert_eq!(response.body, "[]");
}

#[test]
fn test_get_companies_by_continent_return_error() {
    let result: Result<Vec<CompanyDto>, StoreError> = Err(other_error());

    let response = companies_response(&result);

    assert_eq!(response.status, 500);
    assert_eq!(
        response.body,
        "\"error communicating with database: other error\""
    );
}

#[test]
fn test_get_companies_by_country_successfully() {
    let result = Ok(create_companies_mock("Japon", "continent"));

    let response = companies_response(&result);

    assert_eq!(response.status, 200);
    assert_eq!(response.body, dto_list_json_mock("Japon", "continent"));
}

#[test]
fn test_get_companies_by_country_return_no_companies() {
    let result: Result<Vec<CompanyDto>, StoreError> = Ok(Vec::new());

    let response = companies_response(&result);

    assert_eq!(response.status, 200);
    assert_eq!(response.body, "[]");
}

#[test]
fn test_get_companies_by_country_return_error() {
    let result: Result<Vec<CompanyDto>, StoreError> = Err(other_error());

    let response = companies_response(&result);

    assert_eq!(response.status, 500);
    assert_eq!(
        response.body,
        "\"error communicating with database: other error\""
    );
}

#[test]
fn test_get_company_by_id_successfully() {
    let id = "3fa85f64-5717-4562-b3fc-2c963f66afa6";
    let result = Ok(create_company_mock(id));

    let response = get_company_by_id_response(id, &result);

    assert_eq!(response.status, 200);
    assert_eq!(response.body, company_json_mock(id));
}

#[test]
fn test_get_company_by_id_fails_and_return_500() {
    let id = "3fa85f64-5717-4562-b3fc-2c963f66afa6";
    let result: Result<Company, StoreError> = Err(other_error());

    let response = get_company_by_id_response(id, &result);

    assert_eq!(response.status, 500);
    assert_eq!(
        response.body,
        "\"error communicating with database: other error\""
    );
}

#[test]
fn test_get_company_by_id_fails_and_return_404() {
    let id = "3fa85f64-5717-4562-b3fc-2c963f66afa6";
    let result: Result<Company, StoreError> = Err(StoreError::NotFound);

    let response = get_company_by_id_response(id, &result);

    assert_eq!(response.status, 404);
    assert_eq!(
        response.body,
        format!("\"No company found by id: {}\"", id)
    );
}

#[test]
fn test_create_country() {
    let result = Ok(Country {
        name: "Japon".to_string(),
        continent: "Asia".to_string(),
    });

    let response = create_country_response(&result);

    assert_eq!(response.status, 200);
    assert_eq!(response.body, "{\"name\":\"Japon\",\"continent\":\"Asia\"}");
}

#[test]
fn test_create_country_fails() {
    let result: Result<Country, StoreError> = Err(other_error());

    let response = create_country_response(&result);

    assert_eq!(response.status, 500);
    assert_eq!(
        response.body,
        "\"error communicating with database: other error\""
    );
}

#[test]
fn test_create_country_scenario_end_to_end() {
    let mut usecase = CreateCountryImpl::new(MemStore::new());

    let result = usecase.create(&create_country_request_mock());
    let response = create_country_response(&result);

    assert_eq!(response.status, 200);
    assert_eq!(response.body, "{\"name\":\"Japon\",\"continent\":\"Asia\"}");
}

#[test]
fn test_create_company_scenario_end_to_end() {
    let mut usecase = CreateCompanyImpl::new(MemStore::new());

    let result = usecase.create(&create_company_request_mock());
    let response = create_company_response(&result);

    assert_eq!(response.status, 200);
    let body = response.body;
    let prefix = "{\"id\":\"";
    assert!(body.starts_with(prefix));
    let generated_id = &body[prefix.len()..prefix.len() + 36];
    assert_eq!(generated_id.len(), 36);
    assert_ne!(generated_id, "00000000-0000-0000-0000-000000000000");
    assert!(body.contains("\"name\":\"company_name\""));
    assert!(body.contains("\"description\":\"description\""));
    assert!(body.contains("\"country_name\":\"country_name\""));
    assert!(body.contains("\"created_at\":"));
    assert!(!body.contains("\"created_at\":null"));
    assert!(body.contains("\"deleted_at\":null"));
}

#[test]
fn test_get_company_by_id_unused_id_returns_404() {
    let id = "5d2c6a80-91cf-4f30-a2bd-3a0a1e28a6f0";
    let usecase = GetCompanyByIDImpl::new(MemStore::new());

    let result = usecase.get_by_id(id);
    let response = get_company_by_id_response(id, &result);

    assert_eq!(response.status, 404);
    assert_eq!(
        response.body,
        format!("\"No company found by id: {}\"", id)
    );
}

#[test]
fn test_store_failure_renders_500_end_to_end() {
    let mut store = MemStore::new();
    store.set_failure("connection reset".to_string());
    let usecase = GetCompaniesByCountryImpl::new(store);

    let result = usecase.get_by_country("Argentina");
    let response = companies_response(&result);

    assert_eq!(response.status, 500);
    assert_eq!(
        response.body,
        "\"error communicating with database: connection reset\""
    );
}
