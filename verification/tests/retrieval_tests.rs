//! Tests of the retrieval path and its HTTP statuses.

use picup::AssetStore;
use picup::FilePart;
use picup::GetImgParam;
use picup::PolicyTable;
use picup::RetrievalOutcome;
use picup::ServerConfig;
use picup::UploadImgParam;
use picup::get_img;
use picup::upload;

fn setup() -> (ServerConfig, AssetStore) {
    let mut categories = PolicyTable::new();
    categories.insert("pic".to_string(), false);
    let config = ServerConfig {
        access_token: "baka".to_string(),
        url_prefix: "https://h/picup/asset".to_string(),
        categories,
    };
    let mut store = AssetStore::new();
    let parts = vec![FilePart {
        file_name: Some("demo.gif".to_string()),
        content_type: "image/gif".to_string(),
        data: Some(vec![1u8, 2, 3]),
    }];
    let (status, _) = upload(
        &config,
        &UploadImgParam::new("baka", 0, "pic", false),
        &parts,
        &mut store,
    );
    assert_eq!(status, 200);
    (config, store)
}

#[test]
fn retrieval_statuses() {
    let (config, store) = setup();

    let found = get_img(
        &config,
        &store,
        &"pic".to_string(),
        &"demo.gif".to_string(),
        &GetImgParam::new(0),
    );
    assert_eq!(found.status(), 200);
    match found {
        RetrievalOutcome::Found(data) => assert_eq!(data, vec![1u8, 2, 3]),
        _ => panic!("the committed asset must be found"),
    }

    let missing = get_img(
        &config,
        &store,
        &"pic".to_string(),
        &"other.gif".to_string(),
        &GetImgParam::new(0),
    );
    assert_eq!(missing.status(), 404);
    assert!(matches!(missing, RetrievalOutcome::NotFound));

    let unknown_category = get_img(
        &config,
        &store,
        &"nope".to_string(),
        &"demo.gif".to_string(),
        &GetImgParam::new(0),
    );
    assert_eq!(unknown_category.status(), 404);
    assert!(matches!(unknown_category, RetrievalOutcome::NotFound));

    // a found asset asked for with compression answers that the
    // feature is not built
    let compressed = get_img(
        &config,
        &store,
        &"pic".to_string(),
        &"demo.gif".to_string(),
        &GetImgParam::new(1),
    );
    assert_eq!(compressed.status(), 501);
    assert!(matches!(compressed, RetrievalOutcome::NotImplemented));
}

#[test]
fn store_collision_recheck() {
    let (_, mut store) = setup();
    // the store itself re-checks at commit time: without overwrite a
    // second put of the same key fails cleanly
    let before = match store.get(&"pic".to_string(), &"demo.gif".to_string()) {
        Some(data) => data.clone(),
        None => panic!("setup committed this asset"),
    };
    let refused = store.put(
        "pic".to_string(),
        "demo.gif".to_string(),
        vec![9u8],
        false,
    );
    assert!(refused.is_err());
    assert_eq!(
        store.get(&"pic".to_string(), &"demo.gif".to_string()),
        Some(&before)
    );

    let replaced = store.put("pic".to_string(), "demo.gif".to_string(), vec![9u8], true);
    assert!(replaced.is_ok());
    assert_eq!(
        store.get(&"pic".to_string(), &"demo.gif".to_string()),
        Some(&vec![9u8])
    );
}
