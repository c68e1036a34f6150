use tenure_registry::api::{
    CreateTenureRequest, DeleteTenureRequest, PutTenureRequest, TenureApi, TestApi, CREATE_PERMISSION,
    DELETE_PERMISSION, UPDATE_PERMISSION,
};
use tenure_registry::auth::JwtAuth;
use tenure_registry::claims::{AppMetadata, Claims, CustomClaims, Group};
use tenure_registry::error::{decimal_text, TenureError};
use tenure_registry::tenure::{StorageError, Tenure, TenureTable};

fn claims_with(perms: &[&str]) -> Claims {
    Claims {
        user_id: "user-1".to_string(),
        app_metadata: AppMetadata {
            custom_claims: CustomClaims {
                groups: vec![Group {
                    id: "g1".to_string(),
                    name: "board".to_string(),
                    permissions: perms.iter().map(|p| p.to_string()).collect(),
                }],
            },
        },
    }
}

fn admin() -> JwtAuth {
    JwtAuth(claims_with(&[CREATE_PERMISSION, UPDATE_PERMISSION, DELETE_PERMISSION]))
}

fn create(store: &mut TenureTable, year: i32, is_active: bool, id: u128) -> Result<Tenure, TenureError> {
    TenureApi.create_tenure(&admin(), store, &CreateTenureRequest { year, is_active }, id)
}

#[test]
fn create_then_duplicate_year_conflicts() {
    let mut store = TenureTable::new();
    let t = create(&mut store, 2024, true, 1).unwrap();
    assert_eq!(t, Tenure { id: 1, year: 2024, is_active: true });
    let err = create(&mut store, 2024, false, 2).unwrap_err();
    assert!(matches!(err, TenureError::DuplicateYear { year: 2024, .. }));
    assert_eq!(err.status(), 409);
    let body = err.to_response();
    assert_eq!(body.code, "DUPLICATE_YEAR");
    assert_eq!(body.message, "A tenure for year 2024 already exists");
    assert_eq!(body.details, None);
    assert_eq!(store.get_all().len(), 1);
}

#[test]
fn duplicate_year_message_with_negative_year() {
    let body = TenureError::DuplicateYear { year: -45, on_update: false }.to_response();
    assert_eq!(body.message, "A tenure for year -45 already exists");
}

#[test]
fn second_active_create_is_invalid_action() {
    let mut store = TenureTable::new();
    assert!(create(&mut store, 2024, true, 1).is_ok());
    let err = create(&mut store, 2025, true, 2).unwrap_err();
    assert!(matches!(err, TenureError::InvalidAction { .. }));
    assert_eq!(err.status(), 409);
    let body = err.to_response();
    assert_eq!(body.code, "INVALID_ACTION");
    assert_eq!(body.details.as_deref(), Some("Set the current active tenure to inactive first"));
    assert_eq!(store.get_all(), vec![Tenure { id: 1, year: 2024, is_active: true }]);
}

#[test]
fn last_active_tenure_lifecycle() {
    let mut store = TenureTable::new();
    let api = TenureApi;
    let t1 = create(&mut store, 2024, true, 1).unwrap();
    let err = api.delete_tenure(&admin(), &mut store, &DeleteTenureRequest { id: t1.id }).unwrap_err();
    assert!(matches!(err, TenureError::LastActiveTenure));
    assert_eq!(err.to_response().code, "LAST_ACTIVE_TENURE");
    assert_eq!(err.status(), 409);

    assert!(matches!(create(&mut store, 2025, true, 2), Err(TenureError::InvalidAction { .. })));
    let put = PutTenureRequest { id: t1.id, year: 2024, is_active: false };
    assert_eq!(
        api.put_tenure(&admin(), &mut store, &put).unwrap(),
        Tenure { id: 1, year: 2024, is_active: false }
    );
    let t2 = create(&mut store, 2025, true, 2).unwrap();
    assert_eq!(t2, Tenure { id: 2, year: 2025, is_active: true });
    assert_eq!(api.delete_tenure(&admin(), &mut store, &DeleteTenureRequest { id: t1.id }).unwrap(), 1);
    assert_eq!(store.get_all(), vec![t2]);
}

#[test]
fn update_unknown_id_is_not_found() {
    let mut store = TenureTable::new();
    create(&mut store, 2024, false, 1).unwrap();
    let put = PutTenureRequest { id: 99, year: 2030, is_active: false };
    let err = TenureApi.put_tenure(&admin(), &mut store, &put).unwrap_err();
    assert!(matches!(err, TenureError::NotFound));
    assert_eq!(err.status(), 404);
    let body = err.to_response();
    assert_eq!(body.code, "TENURE_NOT_FOUND");
    assert_eq!(body.message, "Tenure not found");
}

#[test]
fn delete_unknown_id_is_not_found() {
    let mut store = TenureTable::new();
    let err = TenureApi.delete_tenure(&admin(), &mut store, &DeleteTenureRequest { id: 5 }).unwrap_err();
    assert!(matches!(err, TenureError::NotFound));
}

#[test]
fn update_to_own_values_succeeds() {
    let mut store = TenureTable::new();
    create(&mut store, 2023, false, 1).unwrap();
    create(&mut store, 2024, true, 2).unwrap();
    let before = store.get_all();
    for t in before.clone() {
        let put = PutTenureRequest { id: t.id, year: t.year, is_active: t.is_active };
        assert_eq!(TenureApi.put_tenure(&admin(), &mut store, &put).unwrap(), t);
    }
    assert_eq!(store.get_all(), before);
}

#[test]
fn update_to_taken_year_conflicts() {
    let mut store = TenureTable::new();
    create(&mut store, 2023, false, 1).unwrap();
    create(&mut store, 2024, false, 2).unwrap();
    let put = PutTenureRequest { id: 1, year: 2024, is_active: false };
    let err = TenureApi.put_tenure(&admin(), &mut store, &put).unwrap_err();
    assert!(matches!(err, TenureError::DuplicateYear { year: 2024, .. }));
}

#[test]
fn update_activation_beside_active_is_invalid() {
    let mut store = TenureTable::new();
    create(&mut store, 2023, false, 1).unwrap();
    create(&mut store, 2024, true, 2).unwrap();
    let put = PutTenureRequest { id: 1, year: 2023, is_active: true };
    let err = TenureApi.put_tenure(&admin(), &mut store, &put).unwrap_err();
    assert!(matches!(err, TenureError::InvalidAction { .. }));
}

#[test]
fn two_activations_on_empty_table_one_wins() {
    let mut store = TenureTable::new();
    let first = create(&mut store, 2024, true, 1);
    let second = create(&mut store, 2025, true, 2);
    assert!(first.is_ok());
    assert!(matches!(second, Err(TenureError::InvalidAction { .. })));
    assert_eq!(store.get_all().iter().filter(|t| t.is_active).count(), 1);
}

#[test]
fn states_keep_one_active_and_unique_years() {
    let mut store = TenureTable::new();
    let api = TenureApi;
    for (i, year) in [2020, 2022, 2021, 2022, 2019].iter().enumerate() {
        let _ = create(&mut store, *year, i % 2 == 0, i as u128 + 1);
    }
    let _ = api.put_tenure(&admin(), &mut store, &PutTenureRequest { id: 2, year: 2020, is_active: true });
    let _ = api.put_tenure(&admin(), &mut store, &PutTenureRequest { id: 3, year: 2030, is_active: true });
    let _ = api.delete_tenure(&admin(), &mut store, &DeleteTenureRequest { id: 1 });
    let rows = store.get_all();
    assert!(rows.iter().filter(|t| t.is_active).count() <= 1);
    for i in 0..rows.len() {
        for j in (i + 1)..rows.len() {
            assert_ne!(rows[i].year, rows[j].year);
            assert_ne!(rows[i].id, rows[j].id);
        }
    }
}

#[test]
fn listing_is_latest_year_first() {
    let mut store = TenureTable::new();
    create(&mut store, 2021, false, 1).unwrap();
    create(&mut store, 2024, false, 2).unwrap();
    create(&mut store, 2019, true, 3).unwrap();
    let years: Vec<i32> = TenureApi.get_all_tenures(&store).iter().map(|t| t.year).collect();
    assert_eq!(years, vec![2024, 2021, 2019]);
    TenureApi
        .put_tenure(&admin(), &mut store, &PutTenureRequest { id: 3, year: 2030, is_active: true })
        .unwrap();
    let years: Vec<i32> = store.get_all().iter().map(|t| t.year).collect();
    assert_eq!(years, vec![2030, 2024, 2021]);
}

#[test]
fn missing_permission_is_forbidden() {
    let mut store = TenureTable::new();
    let reader = JwtAuth(claims_with(&[UPDATE_PERMISSION]));
    let err = TenureApi
        .create_tenure(&reader, &mut store, &CreateTenureRequest { year: 2024, is_active: true }, 1)
        .unwrap_err();
    match &err {
        TenureError::Forbidden { missing } => assert_eq!(missing, &vec![CREATE_PERMISSION.to_string()]),
        _ => panic!("expected a refusal for lack of permission"),
    }
    assert_eq!(err.status(), 403);
    let body = err.to_response();
    assert_eq!(body.code, "UNAUTHORIZED");
    assert_eq!(body.message, "Insufficient permissions");
    assert_eq!(
        body.details.as_deref(),
        Some("Missing Permission(s): [\"member-portal.tenure.create\"]")
    );
    assert!(store.get_all().is_empty());
}

#[test]
fn update_and_delete_need_their_permissions() {
    let mut store = TenureTable::new();
    create(&mut store, 2024, false, 1).unwrap();
    let creator = JwtAuth(claims_with(&[CREATE_PERMISSION]));
    let put = PutTenureRequest { id: 1, year: 2025, is_active: false };
    assert!(matches!(
        TenureApi.put_tenure(&creator, &mut store, &put),
        Err(TenureError::Forbidden { .. })
    ));
    assert!(matches!(
        TenureApi.delete_tenure(&creator, &mut store, &DeleteTenureRequest { id: 1 }),
        Err(TenureError::Forbidden { .. })
    ));
    assert_eq!(store.get_all(), vec![Tenure { id: 1, year: 2024, is_active: false }]);
}

#[test]
fn reused_identity_is_a_storage_error() {
    let mut store = TenureTable::new();
    create(&mut store, 2024, false, 7).unwrap();
    let err = create(&mut store, 2025, false, 7).unwrap_err();
    assert!(matches!(err, TenureError::Storage(StorageError::UniqueViolation)));
    assert_eq!(err.status(), 500);
    assert_eq!(err.to_response().code, "INTERNAL_ERROR");
}

#[test]
fn repository_queries_exclude_the_given_row() {
    let mut store = TenureTable::new();
    store.create(1, 2024, true).unwrap();
    store.create(2, 2023, false).unwrap();
    assert!(store.exists_by_id(1));
    assert!(!store.exists_by_id(3));
    assert!(store.exists_by_year(2023));
    assert!(!store.exists_by_year(2022));
    assert!(store.is_year_taken_by_other(2024, None));
    assert!(!store.is_year_taken_by_other(2024, Some(1)));
    assert!(store.is_year_taken_by_other(2024, Some(2)));
    assert!(store.has_active_tenure(None));
    assert!(!store.has_active_tenure(Some(1)));
    assert_eq!(store.find_by_id(2), Some(Tenure { id: 2, year: 2023, is_active: false }));
    assert_eq!(store.find_by_id(9), None);
}

#[test]
fn repository_refuses_broken_writes() {
    let mut store = TenureTable::new();
    store.create(1, 2024, true).unwrap();
    assert_eq!(store.create(2, 2024, false), Err(StorageError::UniqueViolation));
    assert_eq!(store.create(2, 2025, true), Err(StorageError::UniqueViolation));
    assert_eq!(store.update(3, 2025, false), Err(StorageError::RowNotFound));
    assert_eq!(store.delete(3), Err(StorageError::RowNotFound));
    assert_eq!(store.update(1, 2026, true), Ok(Tenure { id: 1, year: 2026, is_active: true }));
    assert_eq!(store.delete(1), Ok(1));
    assert!(store.get_all().is_empty());
}

#[test]
fn test_endpoints() {
    assert_eq!(TestApi.ping(), "pong");
    let claims = TestApi.echo_claims(JwtAuth(claims_with(&[CREATE_PERMISSION])));
    assert_eq!(claims.user_id, "user-1");
    assert_eq!(claims.app_metadata.custom_claims.groups[0].permissions, vec![CREATE_PERMISSION.to_string()]);
}

#[test]
fn load_orders_rows_and_refuses_clashes() {
    let rows = vec![
        Tenure { id: 1, year: 2021, is_active: false },
        Tenure { id: 2, year: 2023, is_active: true },
        Tenure { id: 3, year: 2022, is_active: false },
    ];
    let table = TenureTable::load(&rows).unwrap();
    let years: Vec<i32> = table.get_all().iter().map(|t| t.year).collect();
    assert_eq!(years, vec![2023, 2022, 2021]);

    let same_year = vec![Tenure { id: 1, year: 2021, is_active: false }, Tenure { id: 2, year: 2021, is_active: false }];
    assert_eq!(TenureTable::load(&same_year).err(), Some(StorageError::UniqueViolation));
    let two_active = vec![Tenure { id: 1, year: 2021, is_active: true }, Tenure { id: 2, year: 2022, is_active: true }];
    assert_eq!(TenureTable::load(&two_active).err(), Some(StorageError::UniqueViolation));
    let same_id = vec![Tenure { id: 1, year: 2021, is_active: false }, Tenure { id: 1, year: 2022, is_active: false }];
    assert_eq!(TenureTable::load(&same_id).err(), Some(StorageError::UniqueViolation));
}

#[test]
fn update_refusals_use_update_wording() {
    let mut store = TenureTable::new();
    create(&mut store, 2023, false, 1).unwrap();
    create(&mut store, 2024, true, 2).unwrap();
    let taken = PutTenureRequest { id: 1, year: 2024, is_active: false };
    let body = TenureApi.put_tenure(&admin(), &mut store, &taken).unwrap_err().to_response();
    assert_eq!(body.code, "DUPLICATE_YEAR");
    assert_eq!(body.message, "Another tenure already exists for year 2024");
    let activate = PutTenureRequest { id: 1, year: 2023, is_active: true };
    let body = TenureApi.put_tenure(&admin(), &mut store, &activate).unwrap_err().to_response();
    assert_eq!(body.code, "INVALID_ACTION");
    assert_eq!(body.details, None);
}

#[test]
fn authorize_checks_one_permission() {
    assert!(tenure_registry::api::authorize(&admin().0, DELETE_PERMISSION).is_ok());
    let reader = claims_with(&[UPDATE_PERMISSION]);
    match tenure_registry::api::authorize(&reader, DELETE_PERMISSION) {
        Err(TenureError::Forbidden { missing }) => assert_eq!(missing, vec![DELETE_PERMISSION.to_string()]),
        _ => panic!("expected a refusal"),
    }
}

#[test]
fn decimal_text_writes_years() {
    assert_eq!(decimal_text(0), "0");
    assert_eq!(decimal_text(7), "7");
    assert_eq!(decimal_text(2024), "2024");
    assert_eq!(decimal_text(-45), "-45");
    assert_eq!(decimal_text(i32::MAX), i32::MAX.to_string());
    assert_eq!(decimal_text(i32::MIN), i32::MIN.to_string());
}
