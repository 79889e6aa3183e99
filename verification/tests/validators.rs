use account_info::cvic::{
    assertAdminRights, check_url_pattern, constructor, deleteUrl, deleteUrlForValidator,
    getUrl, get_caller_name, hasAdminRights, setUrl, setUrlForValidator, url_verdict,
};
use account_info::entry_points::{Access, Context, ValueType};
use account_info::named_keys::{del_key, get_key, set_key, NamedKeys};
use account_info::validator_info::{
    check_url, delete_url, delete_url_for_validator, describe_entry_points, get_entry_points,
    get_url, set_url, set_url_for_validator,
};
use account_info::{ContractError, Identity};
use casper_types::{CLType, EntryPointAccess, EntryPointType};

/// An identity whose bytes are the text of 32 times the letter.
fn named(letter: u8) -> Identity {
    Identity::new([letter; 32])
}

fn name_of(letter: char) -> String {
    std::iter::repeat(letter).take(32).collect()
}

/// An identity whose bytes are no text.
fn nameless() -> Identity {
    Identity::new([0xff; 32])
}

#[test]
fn named_keys_are_kept_and_removed() {
    let mut keys = NamedKeys::new();
    assert_eq!(get_key(&keys, "a"), None);
    set_key(&mut keys, "a", "one");
    set_key(&mut keys, "b", "two");
    assert_eq!(get_key(&keys, "a"), Some("one".to_string()));
    assert_eq!(get_key(&keys, "b"), Some("two".to_string()));
    set_key(&mut keys, "a", "uno");
    assert_eq!(get_key(&keys, "a"), Some("uno".to_string()));
    del_key(&mut keys, "a");
    assert_eq!(get_key(&keys, "a"), None);
    assert_eq!(get_key(&keys, "b"), Some("two".to_string()));
    del_key(&mut keys, "a");
    del_key(&mut keys, "never");
    assert_eq!(get_key(&keys, "b"), Some("two".to_string()));
}

#[test]
fn check_url_goes_by_the_prefix() {
    assert!(check_url("http://localhost:80"));
    assert!(check_url("https://127.0.0.1:90"));
    assert!(check_url("http://a\nb"));
    assert!(!check_url("ftp://x"));
    assert!(!check_url("HTTPS://x"));
    assert!(!check_url(""));
}

#[test]
fn validator_publishes_and_removes() {
    let mut keys = NamedKeys::new();
    assert_eq!(get_url(&keys, "v1"), "");
    assert_eq!(set_url(&mut keys, "v1", "https://v1"), Ok(()));
    assert_eq!(get_url(&keys, "v1"), "https://v1");
    assert_eq!(set_url(&mut keys, "v1", "http://v1.example"), Ok(()));
    assert_eq!(get_url(&keys, "v1"), "http://v1.example");
    assert_eq!(
        set_url(&mut keys, "v1", "v1.example"),
        Err(ContractError::BadUrlFormat)
    );
    assert_eq!(get_url(&keys, "v1"), "http://v1.example");
    delete_url(&mut keys, "v1");
    assert_eq!(get_url(&keys, "v1"), "");
    delete_url(&mut keys, "v1");
    assert_eq!(get_url(&keys, "v1"), "");
}

#[test]
fn admin_writes_for_validator() {
    let mut keys = NamedKeys::new();
    set_url(&mut keys, "v1", "https://v1").unwrap();
    assert_eq!(set_url_for_validator(&mut keys, "v2", "https://v2"), Ok(()));
    assert_eq!(set_url_for_validator(&mut keys, "v1", "https://other"), Ok(()));
    assert_eq!(
        set_url_for_validator(&mut keys, "v3", "gopher://v3"),
        Err(ContractError::BadUrlFormat)
    );
    assert_eq!(get_url(&keys, "v1"), "https://other");
    assert_eq!(get_url(&keys, "v2"), "https://v2");
    assert_eq!(get_url(&keys, "v3"), "");
    delete_url_for_validator(&mut keys, "v1");
    assert_eq!(get_url(&keys, "v1"), "");
    assert_eq!(get_url(&keys, "v2"), "https://v2");
}

#[test]
fn validator_operations_in_plain_values() {
    let described = describe_entry_points();
    let told: Vec<(&str, usize, ValueType, Access, Context)> = described
        .iter()
        .map(|e| (e.name, e.parameters.len(), e.result_type, e.access, e.context))
        .collect();
    let contract = Context::Contract;
    assert_eq!(
        told,
        vec![
            ("set_url", 1, ValueType::Unit, Access::Public, contract),
            ("get_url", 1, ValueType::String, Access::Public, contract),
            ("delete_url", 0, ValueType::Unit, Access::Public, contract),
            ("set_url_for_validator", 2, ValueType::Unit, Access::AdminGroup, contract),
            ("delete_url_for_validator", 1, ValueType::Unit, Access::AdminGroup, contract),
        ]
    );
    assert_eq!(described[0].parameters[0].name, "url");
    assert_eq!(described[1].parameters[0].name, "public_key");
    assert_eq!(described[1].parameters[0].value_type, ValueType::PublicKey);
    assert_eq!(described[3].parameters[0].name, "public_key");
    assert_eq!(described[3].parameters[1].name, "url");
    assert_eq!(described[3].parameters[1].value_type, ValueType::String);
    assert_eq!(described[4].parameters[0].name, "public_key");
}

#[test]
fn validator_operations_told_to_the_host() {
    let table = get_entry_points();
    let names: Vec<&str> = table.keys().map(|name| name.as_str()).collect();
    assert_eq!(
        names,
        vec![
            "delete_url",
            "delete_url_for_validator",
            "get_url",
            "set_url",
            "set_url_for_validator",
        ]
    );
    let arguments = |name: &str| -> Vec<(String, CLType)> {
        table
            .get(name)
            .unwrap()
            .args()
            .iter()
            .map(|argument| (argument.name().to_string(), argument.cl_type().clone()))
            .collect()
    };
    let key = ("public_key".to_string(), CLType::PublicKey);
    let url = ("url".to_string(), CLType::String);
    assert_eq!(arguments("set_url"), vec![url.clone()]);
    assert_eq!(arguments("get_url"), vec![key.clone()]);
    assert_eq!(arguments("delete_url"), vec![]);
    assert_eq!(arguments("set_url_for_validator"), vec![key.clone(), url.clone()]);
    assert_eq!(arguments("delete_url_for_validator"), vec![key.clone()]);
    let admins = EntryPointAccess::groups(&["admin"]);
    for name in ["set_url", "get_url", "delete_url"] {
        assert_eq!(table.get(name).unwrap().access(), &EntryPointAccess::Public);
    }
    for name in ["set_url_for_validator", "delete_url_for_validator"] {
        assert_eq!(table.get(name).unwrap().access(), &admins);
    }
    for name in names {
        let entry_point = table.get(name).unwrap();
        assert_eq!(entry_point.entry_point_type(), EntryPointType::Contract);
        let expected = if name == "get_url" {
            CLType::String
        } else {
            CLType::Unit
        };
        assert_eq!(entry_point.ret(), &expected);
    }
}

#[test]
fn pattern_accepts_urls() {
    assert_eq!(check_url_pattern("http://localhost:80"), Ok(()));
    assert_eq!(check_url_pattern("https://127.0.0.1:90"), Ok(()));
    assert_eq!(check_url_pattern("http://"), Ok(()));
    assert_eq!(check_url_pattern("https://"), Ok(()));
}

#[test]
fn pattern_refuses_other_texts() {
    let refused = Err(ContractError::BadUrlFormat);
    assert_eq!(check_url_pattern(""), refused);
    assert_eq!(check_url_pattern("ftp://x"), refused);
    assert_eq!(check_url_pattern("httpss://x"), refused);
    assert_eq!(check_url_pattern("HTTP://x"), refused);
    assert_eq!(check_url_pattern(" http://x"), refused);
    assert_eq!(check_url_pattern("see http://x"), refused);
    // The pattern does not reach across a line break.
    assert_eq!(check_url_pattern("http://a\nb"), refused);
}

#[test]
fn verdict_on_a_search() {
    assert_eq!(url_verdict(Some(true)), Ok(()));
    assert_eq!(url_verdict(Some(false)), Err(ContractError::BadUrlFormat));
    assert_eq!(url_verdict(None), Err(ContractError::BadUrlFormat));
}

#[test]
fn caller_names() {
    assert_eq!(get_caller_name(&named(b'a')), Ok(name_of('a')));
    assert_eq!(get_caller_name(&named(b'_')), Ok(name_of('_')));
    assert_eq!(get_caller_name(&named(0)), Ok(name_of('\0')));
    assert_eq!(
        get_caller_name(&nameless()),
        Err(ContractError::ReadingCallerError)
    );
    // Sixteen times the two bytes of one letter.
    let mut bytes = [0u8; 32];
    for pair in bytes.chunks_mut(2) {
        pair.copy_from_slice("é".as_bytes());
    }
    assert_eq!(
        get_caller_name(&Identity::new(bytes)),
        Ok("é".repeat(16))
    );
    // A letter cut in two.
    bytes[31] = b'a';
    assert_eq!(
        get_caller_name(&Identity::new(bytes)),
        Err(ContractError::ReadingCallerError)
    );
}

#[test]
fn privileged_names() {
    let cvic = constructor(vec![name_of('a'), name_of('b')]);
    assert!(hasAdminRights(&cvic, &name_of('a')));
    assert!(hasAdminRights(&cvic, &name_of('b')));
    assert!(!hasAdminRights(&cvic, &name_of('c')));
    assert!(!hasAdminRights(&cvic, "a"));
    assert!(!hasAdminRights(&cvic, ""));
    assert_eq!(assertAdminRights(&cvic, &named(b'a')), Ok(()));
    assert_eq!(
        assertAdminRights(&cvic, &named(b'c')),
        Err(ContractError::NotAllowed)
    );
    assert_eq!(
        assertAdminRights(&cvic, &nameless()),
        Err(ContractError::ReadingCallerError)
    );
    let nobody = constructor(vec![]);
    assert!(!hasAdminRights(&nobody, &name_of('a')));
}

#[test]
fn caller_publishes_under_its_name() {
    let mut cvic = constructor(vec![name_of('a')]);
    assert_eq!(getUrl(&cvic, &name_of('u')), Err(ContractError::NotFound));
    assert_eq!(setUrl(&mut cvic, &named(b'u'), "https://u"), Ok(()));
    assert_eq!(getUrl(&cvic, &name_of('u')), Ok("https://u".to_string()));
    assert_eq!(setUrl(&mut cvic, &named(b'u'), "http://u2"), Ok(()));
    assert_eq!(getUrl(&cvic, &name_of('u')), Ok("http://u2".to_string()));
    assert_eq!(
        setUrl(&mut cvic, &named(b'u'), "u.example"),
        Err(ContractError::BadUrlFormat)
    );
    assert_eq!(
        setUrl(&mut cvic, &named(b'u'), "http://a\nb"),
        Err(ContractError::BadUrlFormat)
    );
    assert_eq!(getUrl(&cvic, &name_of('u')), Ok("http://u2".to_string()));
    assert_eq!(deleteUrl(&mut cvic, &named(b'u')), Ok(()));
    assert_eq!(getUrl(&cvic, &name_of('u')), Err(ContractError::NotFound));
    assert_eq!(deleteUrl(&mut cvic, &named(b'u')), Ok(()));
}

#[test]
fn nameless_caller_is_refused() {
    let mut cvic = constructor(vec![]);
    assert_eq!(
        setUrl(&mut cvic, &nameless(), "https://u"),
        Err(ContractError::ReadingCallerError)
    );
    // The URL is looked at first.
    assert_eq!(
        setUrl(&mut cvic, &nameless(), "u"),
        Err(ContractError::BadUrlFormat)
    );
    assert_eq!(
        deleteUrl(&mut cvic, &nameless()),
        Err(ContractError::ReadingCallerError)
    );
}

#[test]
fn privileged_caller_writes_for_validator() {
    let mut cvic = constructor(vec![name_of('a')]);
    setUrl(&mut cvic, &named(b'u'), "https://u").unwrap();
    assert_eq!(
        setUrlForValidator(&mut cvic, &named(b'a'), &name_of('u'), "https://by-admin"),
        Ok(())
    );
    assert_eq!(getUrl(&cvic, &name_of('u')), Ok("https://by-admin".to_string()));
    assert_eq!(
        setUrlForValidator(&mut cvic, &named(b'a'), "v", "v.example"),
        Err(ContractError::BadUrlFormat)
    );
    assert_eq!(getUrl(&cvic, "v"), Err(ContractError::NotFound));
    assert_eq!(
        deleteUrlForValidator(&mut cvic, &named(b'a'), &name_of('u')),
        Ok(())
    );
    assert_eq!(getUrl(&cvic, &name_of('u')), Err(ContractError::NotFound));
}

#[test]
fn other_callers_may_not_write_for_validator() {
    let mut cvic = constructor(vec![name_of('a')]);
    setUrl(&mut cvic, &named(b'a'), "https://a").unwrap();
    // Permission is checked before the URL.
    assert_eq!(
        setUrlForValidator(&mut cvic, &named(b'u'), &name_of('a'), "nonsense"),
        Err(ContractError::NotAllowed)
    );
    assert_eq!(
        setUrlForValidator(&mut cvic, &named(b'u'), &name_of('a'), "https://u"),
        Err(ContractError::NotAllowed)
    );
    assert_eq!(
        deleteUrlForValidator(&mut cvic, &named(b'u'), &name_of('a')),
        Err(ContractError::NotAllowed)
    );
    assert_eq!(
        deleteUrlForValidator(&mut cvic, &nameless(), &name_of('a')),
        Err(ContractError::ReadingCallerError)
    );
    assert_eq!(getUrl(&cvic, &name_of('a')), Ok("https://a".to_string()));
}
