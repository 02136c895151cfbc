use node_manager::error::{Kind, Origin};
use node_manager::transport::{
    Transport, TransportMode, TransportRegistry, TransportStatus, TransportType,
};

fn tcp(mode: TransportMode, address: &str) -> Transport {
    Transport::new(TransportType::Tcp, mode, address.to_string())
}

#[test]
fn new_registry_is_empty() {
    let registry = TransportRegistry::new();
    assert_eq!(registry.len(), 0);
    assert!(registry.list(TransportMode::Connect).is_empty());
    assert!(registry.list(TransportMode::Listen).is_empty());
}

#[test]
fn added_transport_gets_an_alias_of_thirty_two_hex_digits() {
    let mut registry = TransportRegistry::new();
    let alias = registry.add_transport(tcp(TransportMode::Connect, "10.0.0.1:4000"));
    assert_eq!(alias.len(), 32);
    assert!(alias.chars().all(|c| matches!(c, '0'..='9' | 'a'..='f')));
    assert!(registry.contains(&alias));
    assert_eq!(registry.get(&alias), Some(&tcp(TransportMode::Connect, "10.0.0.1:4000")));
}

#[test]
fn aliases_are_drawn_anew() {
    let mut registry = TransportRegistry::new();
    let a = registry.add_transport(tcp(TransportMode::Connect, "a:1"));
    let b = registry.add_transport(tcp(TransportMode::Connect, "b:2"));
    assert_ne!(a, b);
    assert_eq!(registry.len(), 2);
}

#[test]
fn added_then_deleted_is_not_listed() {
    let mut registry = TransportRegistry::new();
    let kept = registry.add_transport(tcp(TransportMode::Connect, "10.0.0.1:4000"));
    let alias = registry.add_transport(tcp(TransportMode::Connect, "10.0.0.2:4000"));
    assert_eq!(registry.list(TransportMode::Connect).len(), 2);
    let taken = registry.remove(&alias).unwrap();
    assert_eq!(taken, tcp(TransportMode::Connect, "10.0.0.2:4000"));
    let listed = registry.list(TransportMode::Connect);
    assert_eq!(
        listed,
        vec![TransportStatus {
            tt: TransportType::Tcp,
            tm: TransportMode::Connect,
            payload: "10.0.0.1:4000".to_string(),
            tid: kept,
        }]
    );
    assert!(registry.list(TransportMode::Listen).is_empty());
    assert!(!registry.contains(&alias));
}

#[test]
fn deleting_an_unknown_alias_is_not_found() {
    let mut registry = TransportRegistry::new();
    registry.insert("known".to_string(), tcp(TransportMode::Listen, "0.0.0.0:1"));
    let err = registry.remove("unknown").unwrap_err();
    assert_eq!(err.kind, Kind::NotFound);
    assert_eq!(err.origin, Origin::Api);
    assert_eq!(err.message, "Transport not found");
    assert_eq!(registry.len(), 1);
    assert!(registry.contains("known"));
}

#[test]
fn deleting_twice_is_not_found_the_second_time() {
    let mut registry = TransportRegistry::new();
    registry.insert("t".to_string(), tcp(TransportMode::Connect, "x:1"));
    assert!(registry.remove("t").is_ok());
    assert_eq!(registry.remove("t").unwrap_err().kind, Kind::NotFound);
}

#[test]
fn listing_is_filtered_by_mode_and_keeps_order() {
    let mut registry = TransportRegistry::new();
    registry.insert("a".to_string(), tcp(TransportMode::Listen, "0.0.0.0:1"));
    registry.insert("b".to_string(), tcp(TransportMode::Connect, "h:2"));
    registry.insert("c".to_string(), tcp(TransportMode::Listen, "0.0.0.0:3"));
    registry.insert("d".to_string(), tcp(TransportMode::Connect, "h:4"));
    let listen: Vec<String> = registry.list(TransportMode::Listen).into_iter().map(|s| s.tid).collect();
    let connect: Vec<String> =
        registry.list(TransportMode::Connect).into_iter().map(|s| s.tid).collect();
    assert_eq!(listen, vec!["a", "c"]);
    assert_eq!(connect, vec!["b", "d"]);
}

#[test]
fn inserting_under_a_taken_alias_replaces_in_place() {
    let mut registry = TransportRegistry::new();
    registry.insert("a".to_string(), tcp(TransportMode::Connect, "h:1"));
    registry.insert("b".to_string(), tcp(TransportMode::Connect, "h:2"));
    registry.insert("a".to_string(), tcp(TransportMode::Connect, "h:9"));
    assert_eq!(registry.len(), 2);
    let listed: Vec<(String, String)> = registry
        .list(TransportMode::Connect)
        .into_iter()
        .map(|s| (s.tid, s.payload))
        .collect();
    assert_eq!(
        listed,
        vec![("a".to_string(), "h:9".to_string()), ("b".to_string(), "h:2".to_string())]
    );
}

#[test]
fn listing_walks_by_alias() {
    let mut registry = TransportRegistry::new();
    for alias in ["m", "b", "zz", "a", "ab", "B", "", "z"] {
        registry.insert(alias.to_string(), tcp(TransportMode::Connect, alias));
    }
    let listed: Vec<String> =
        registry.list(TransportMode::Connect).into_iter().map(|s| s.tid).collect();
    assert_eq!(listed, vec!["", "B", "a", "ab", "b", "m", "z", "zz"]);
    let mut sorted = listed.clone();
    sorted.sort();
    assert_eq!(listed, sorted);
    let as_map: std::collections::BTreeMap<String, ()> =
        listed.iter().map(|a| (a.clone(), ())).collect();
    assert_eq!(as_map.keys().cloned().collect::<Vec<String>>(), listed);
}

#[test]
fn random_aliases_are_listed_in_their_order() {
    let mut registry = TransportRegistry::new();
    for n in 0..20 {
        registry.add_transport(tcp(TransportMode::Listen, &format!("0.0.0.0:{}", 4000 + n)));
    }
    let listed: Vec<String> =
        registry.list(TransportMode::Listen).into_iter().map(|s| s.tid).collect();
    let mut sorted = listed.clone();
    sorted.sort();
    assert_eq!(listed.len(), 20);
    assert_eq!(listed, sorted);
}

#[test]
fn get_of_unknown_alias_is_none() {
    let registry = TransportRegistry::new();
    assert_eq!(registry.get("nothing"), None);
    assert!(!registry.contains("nothing"));
}

#[test]
fn duplicate_is_equal() {
    let t = tcp(TransportMode::Listen, "0.0.0.0:1");
    assert_eq!(t.duplicate(), t);
}
