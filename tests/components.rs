use tabletop_core::components::{Area, BaseComponent, Component, ComponentContainer, Token};
use tabletop_core::core_constants::{ComponentType, VisibilityMode};
use tabletop_core::ids::IdFountain;

fn token_of(c: &Component) -> &Token {
    match c {
        Component::Token(t) => t,
        Component::Area(_) => panic!("expected a token"),
    }
}

fn area_of(c: &Component) -> &Area {
    match c {
        Component::Area(a) => a,
        Component::Token(_) => panic!("expected an area"),
    }
}

#[test]
fn test_put_components_and_clear() {
    let c1 = Token::new_with_id("Meeple1", 1);
    let c2 = Token::new_with_id("Meeple2", 2);
    let c3 = Token::new_with_id("Meeple3", 3);

    let mut area = Area::new_with_id(-1, 10);
    area.put_components(vec![
        Component::Token(c1.clone()),
        Component::Token(c2.clone()),
        Component::Token(c3.clone()),
    ]);
    assert_eq!(area.get_size(), 3);

    let area_c1 = area.get_component(1).unwrap();
    let area_c2 = area.get_component(2).unwrap();
    let area_c3 = area.get_component(3).unwrap();

    assert_eq!(c1, *token_of(area_c1));
    assert_eq!(c2, *token_of(area_c2));
    assert_eq!(c3, *token_of(area_c3));

    area.clear();

    assert!(area.get_component(1).is_none());
    assert!(area.get_component(2).is_none());
    assert!(area.get_component(3).is_none());
}

#[test]
fn test_put_components_with_nested_components() {
    let c1 = Token::new_with_id("Meeple1", 1);
    let c2 = Token::new_with_id("Meeple2", 2);
    let c3 = Token::new_with_id("Meeple3", 3);
    let mut a1 = Area::new_with_id(-1, 10);
    a1.put_components(vec![
        Component::Token(c1.clone()),
        Component::Token(c2.clone()),
        Component::Token(c3.clone()),
    ]);

    let c4 = Token::new_with_id("Meeple4", 4);
    let c5 = Token::new_with_id("Meeple5", 5);
    let c6 = Token::new_with_id("Meeple6", 6);
    let mut a2 = Area::new_with_id(-1, 20);
    a2.put_components(vec![
        Component::Token(c4.clone()),
        Component::Token(c5.clone()),
        Component::Token(c6.clone()),
    ]);

    let c7 = Token::new_with_id("Meeple7", 7);
    let mut a3 = Area::new_with_id(-1, 30);
    a3.put_components(vec![
        Component::Area(a1.clone()),
        Component::Area(a2.clone()),
        Component::Token(c7.clone()),
    ]);
    assert_eq!(a3.get_size(), 9);

    let a3c1 = a3.get_component(1).unwrap();
    let a3c2 = a3.get_component(2).unwrap();
    let a3c3 = a3.get_component(3).unwrap();
    let a3c4 = a3.get_component(4).unwrap();
    let a3c5 = a3.get_component(5).unwrap();
    let a3c6 = a3.get_component(6).unwrap();

    assert_eq!(c1, *token_of(a3c1));
    assert_eq!(c2, *token_of(a3c2));
    assert_eq!(c3, *token_of(a3c3));
    assert_eq!(c4, *token_of(a3c4));
    assert_eq!(c5, *token_of(a3c5));
    assert_eq!(c6, *token_of(a3c6));

    let a3a1 = area_of(a3.get_component(10).unwrap()).clone();
    assert_eq!(a3a1.get_size(), 3);
    assert!(a3a1.get_component(1).is_some());
    assert!(a3a1.get_component(2).is_some());
    assert!(a3a1.get_component(3).is_some());
    assert!(a3a1.get_component(4).is_none());
    assert!(a3a1.get_component(5).is_none());
    assert!(a3a1.get_component(6).is_none());

    let a3a2 = area_of(a3.get_component(20).unwrap()).clone();
    assert_eq!(a3a2.get_size(), 3);
    assert!(a3a2.get_component(1).is_none());
    assert!(a3a2.get_component(2).is_none());
    assert!(a3a2.get_component(3).is_none());
    assert!(a3a2.get_component(4).is_some());
    assert!(a3a2.get_component(5).is_some());
    assert!(a3a2.get_component(6).is_some());
}

#[test]
fn test_different_ids() {
    let mut ids = IdFountain::new();
    let t1 = BaseComponent::new(&mut ids, ComponentType::Token);
    assert_eq!(t1.component_id(), 0);
    let t2 = BaseComponent::new(&mut ids, ComponentType::Token);
    assert_eq!(t2.component_id(), 1);
    assert_ne!(t1, t2);
}

#[test]
fn nested_containers_reachable_at_any_depth_then_cleared() {
    let mut inner = Area::new_with_id(-1, 100);
    inner.put_component(Component::Token(Token::new_with_id("Deep", 101)));
    let mut middle = Area::new_with_id(-1, 200);
    middle.put_component(Component::Area(inner));
    middle.put_component(Component::Token(Token::new_with_id("Mid", 201)));
    let mut outer = Area::new_with_id(-1, 300);
    outer.put_component(Component::Area(middle));
    for id in [100, 101, 200, 201] {
        assert_eq!(outer.get_component(id).unwrap().component_id(), id);
    }
    let map = outer.components_map();
    assert_eq!(map.len(), 4);
    for (key, value) in map.iter() {
        assert_eq!(value.component_id(), *key);
    }
    assert_eq!(outer.get_size(), 4);
    outer.clear();
    for id in [100, 101, 200, 201] {
        assert!(outer.get_component(id).is_none());
    }
    assert_eq!(outer.get_size(), 0);
}

#[test]
fn put_component_returns_replaced_entry() {
    let mut area = Area::new_with_id(3, 50);
    assert!(area.put_component(Component::Token(Token::new_with_id("A", 1))).is_none());
    let old = area.put_component(Component::Token(Token::new_with_id("B", 1)));
    assert_eq!(token_of(old.as_ref().unwrap()).token_type(), "A");
    assert_eq!(token_of(area.get_component(1).unwrap()).token_type(), "B");
    assert_eq!(area.get_size(), 1);
}

#[test]
fn area_equality_compares_ids_and_key_sets_only() {
    let mut a = Area::new_with_id(-1, 7);
    let mut b = Area::new_with_id(-1, 7);
    a.put_component(Component::Token(Token::new_with_id("X", 1)));
    b.put_component(Component::Token(Token::new_with_id("Y", 1)));
    assert_eq!(a, b);
    b.put_component(Component::Token(Token::new_with_id("Z", 2)));
    assert_ne!(a, b);
    let c = Area::new_with_id(-1, 8);
    let d = Area::new_with_id(-1, 7);
    assert_ne!(c, d);
}

#[test]
fn constructors_fill_headers() {
    let mut ids = IdFountain::new();
    let base = BaseComponent::new(&mut ids, ComponentType::Area);
    assert_eq!(base.component_name(), "Area");
    assert_eq!(base.owner_id(), -1);
    assert_eq!(base.component_type(), ComponentType::Area);
    let named = BaseComponent::new_with_name(&mut ids, ComponentType::Token, "Pawn");
    assert_eq!(named.component_id(), 1);
    assert_eq!(named.component_name(), "Pawn");
    let with_id = BaseComponent::new_with_id(ComponentType::Token, 42);
    assert_eq!(with_id.component_name(), "Token");
    assert_eq!(with_id.component_id(), 42);
    let mut renamed = BaseComponent::new_with_name_and_id(ComponentType::Area, "Board", 5);
    renamed.set_owner_id(1);
    renamed.set_component_name("Hand".to_string());
    assert_eq!(renamed.owner_id(), 1);
    assert_eq!(renamed.component_name(), "Hand");

    let token = Token::new(&mut ids, "Meeple");
    assert_eq!(token.component_id(), 2);
    assert_eq!(token.token_type(), "Meeple");
    assert_eq!(token.base().component_name(), "Meeple");
    let area = Area::new(&mut ids, 0);
    assert_eq!(area.component_id(), 3);
    assert_eq!(area.base().owner_id(), 0);
    assert_eq!(area.base().component_name(), "");
    assert_eq!(area.get_visibility_mode(), VisibilityMode::VisibleToAll);
}

#[test]
fn nested_keys_and_components_list_each_entry_once() {
    let mut area = Area::new_with_id(-1, 9);
    area.put_components(vec![
        Component::Token(Token::new_with_id("A", 1)),
        Component::Token(Token::new_with_id("B", 2)),
    ]);
    let mut keys = area.nested_keys();
    keys.sort();
    assert_eq!(keys, vec![1, 2]);
    let mut ids: Vec<usize> = area.get_components().iter().map(|c| c.component_id()).collect();
    ids.sort();
    assert_eq!(ids, vec![1, 2]);
    let wrapped = Component::Area(area.clone());
    assert_eq!(wrapped.nested_components().len(), 2);
    assert_eq!(wrapped.component_id(), 9);
    assert_eq!(area.components_map().len(), 2);
    let token = Component::Token(Token::new_with_id("C", 3));
    assert!(token.nested_components().is_empty());
}
