#![allow(non_snake_case)]
#![allow(dead_code)]

use vitype_core::{InputMethod, VitypeEngine};

fn type_keys(engine: &mut VitypeEngine, input: &str) -> String {
    let mut output: Vec<char> = Vec::new();
    for ch in input.chars() {
        let key = ch.to_string();
        match engine.process(&key) {
            Some(action) => {
                for _ in 0..action.delete_count {
                    output.pop();
                }
                output.extend(action.text.chars());
            }
            None => output.push(ch),
        }
    }
    output.iter().collect()
}

fn apply_input(input: &str) -> String {
    let mut engine = VitypeEngine::new();
    type_keys(&mut engine, input)
}

fn apply_input_with_free_tone_placement(input: &str, free_tone_placement: bool) -> String {
    let mut engine = VitypeEngine::new();
    engine.free_tone_placement = free_tone_placement;
    type_keys(&mut engine, input)
}

fn apply_vni_input(input: &str) -> String {
    let mut engine = VitypeEngine::new();
    engine.input_method = InputMethod::Vni;
    type_keys(&mut engine, input)
}

fn apply_vni_input_with_free_tone_placement(input: &str, free_tone_placement: bool) -> String {
    let mut engine = VitypeEngine::new();
    engine.input_method = InputMethod::Vni;
    engine.free_tone_placement = free_tone_placement;
    type_keys(&mut engine, input)
}

#[test]
fn testToneBlockedForInvalidClustersTelex() {
    assert_eq!(apply_input("aes"), "aes");
    assert_eq!(apply_input("aois"), "aois");
}

#[test]
fn testToneAllowedForValidClustersTelex() {
    assert_eq!(apply_input("euf"), "èu");
    assert_eq!(apply_input("uois"), "uói");
}

#[test]
fn testFreeTonePlacementAllowsInvalidClustersTelex() {
    assert_eq!(apply_input_with_free_tone_placement("aes", true), "áe");
    assert_eq!(apply_input_with_free_tone_placement("muafi", true), "muài");
}

#[test]
fn testToneBlockedForInvalidClustersVni() {
    assert_eq!(apply_vni_input("ae1"), "ae1");
    assert_eq!(apply_vni_input("aoi1"), "aoi1");
}

#[test]
fn testToneAllowedForValidClustersVni() {
    assert_eq!(apply_vni_input("eu2"), "èu");
    assert_eq!(apply_vni_input("uoi1"), "uói");
}

#[test]
fn testFreeTonePlacementAllowsInvalidClustersVni() {
    assert_eq!(apply_vni_input_with_free_tone_placement("ae1", true), "áe");
    assert_eq!(
        apply_vni_input_with_free_tone_placement("mua2i", true),
        "muài"
    );
}
