use hive::context::{HiveMemory, Tagged};
use hive::worker::WorkerError;

#[derive(Clone)]
pub struct AppState {
    pub encoding_key: String,
    pub decoding_key: String,
    pub api_key: String,
    pub api_secret: String,
}

impl Default for AppState {
    fn default() -> Self {
        AppState {
            encoding_key: String::from("default_encoding_key"),
            decoding_key: String::from("default_decoding_key"),
            api_key: String::from("default_api_key"),
            api_secret: String::from("default_api_secret"),
        }
    }
}

#[derive(Clone, Default)]
pub struct DbPool {
    pub pretend_pool: String,
}

const APP_STATE_TAG: u64 = 1;
const DB_POOL_TAG: u64 = 2;

#[derive(Clone)]
enum ContextValue {
    App(AppState),
    Pool(DbPool),
}

impl Tagged for ContextValue {
    fn tag_spec(&self) -> u64 {
        self.tag()
    }

    fn tag(&self) -> u64 {
        match self {
            ContextValue::App(_) => APP_STATE_TAG,
            ContextValue::Pool(_) => DB_POOL_TAG,
        }
    }
}

fn as_app(v: &ContextValue) -> &AppState {
    match v {
        ContextValue::App(s) => s,
        _ => panic!("Failed to get app state as expected"),
    }
}

fn as_pool(v: &ContextValue) -> &DbPool {
    match v {
        ContextValue::Pool(p) => p,
        _ => panic!("Failed to get db pool type as expected"),
    }
}

#[test]
fn can_manage_data() {
    let mut mem: HiveMemory<ContextValue> = HiveMemory::default();
    let app_state = AppState::default();
    let db_pool = DbPool::default();

    mem.insert(ContextValue::App(app_state.clone()));
    mem.insert(ContextValue::Pool(db_pool.clone()));

    let _hm_app_state = as_app(mem.get(APP_STATE_TAG).expect("Failed to get app state as expected"));
    let _hm_db_pool = as_pool(mem.get(DB_POOL_TAG).expect("Failed to get db pool as expected"));
    let hm_app_state_2 = as_app(mem.get(APP_STATE_TAG).expect("Failed to get app state as expected"));

    assert_eq!(
        hm_app_state_2.api_key,
        app_state.api_key,
        "Api key should have matched, expected {}, actual {}",
        app_state.api_key,
        hm_app_state_2.api_key
    );

    let from_context = as_pool(
        mem.get(DB_POOL_TAG)
            .expect("Failed to get db pool type as expected"),
    );
    assert_eq!(
        from_context.pretend_pool,
        db_pool.pretend_pool,
        "Api key should have matched, expected {}, actual {}",
        db_pool.pretend_pool,
        from_context.pretend_pool
    );
}

#[test]
fn store_overwrite_keeps_last() {
    let mut mem: HiveMemory<ContextValue> = HiveMemory::default();
    mem.insert(ContextValue::Pool(DbPool {
        pretend_pool: String::from("first"),
    }));
    mem.insert(ContextValue::Pool(DbPool {
        pretend_pool: String::from("second"),
    }));

    let stored = as_pool(mem.get(DB_POOL_TAG).expect("a pool should be stored"));
    assert_eq!(stored.pretend_pool, "second");
}

#[test]
fn store_absent_tag_is_none() {
    let mut mem: HiveMemory<ContextValue> = HiveMemory::default();
    mem.insert(ContextValue::App(AppState::default()));
    assert!(mem.get(DB_POOL_TAG).is_none());
    assert!(HiveMemory::<ContextValue>::default().get(APP_STATE_TAG).is_none());
}

#[test]
fn from_diesel_error_is_database_kind() {
    let wrapped = WorkerError::from(diesel::result::Error::NotFound);
    assert!(matches!(wrapped, WorkerError::DatabaseError(diesel::result::Error::NotFound)));
}

#[test]
fn from_io_error_is_network_kind() {
    let cause = std::io::Error::new(std::io::ErrorKind::ConnectionReset, "reset");
    let wrapped = WorkerError::from(cause);
    match wrapped {
        WorkerError::NetworkError(e) => assert_eq!(e.kind(), std::io::ErrorKind::ConnectionReset),
        _ => panic!("expected the network kind"),
    }
}
