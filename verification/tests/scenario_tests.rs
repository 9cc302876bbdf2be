use vitype_core::{InputMethod, VitypeEngine};

fn type_keys(engine: &mut VitypeEngine, input: &str) -> String {
    let mut output: Vec<char> = Vec::new();
    for ch in input.chars() {
        let key = ch.to_string();
        match engine.process(&key) {
            Some(action) => {
                assert!(action.delete_count <= output.len());
                for _ in 0..action.delete_count {
                    output.pop();
                }
                output.extend(action.text.chars());
            }
            None => output.push(ch),
        }
    }
    output.iter().collect()
}

fn telex(input: &str) -> String {
    let mut engine = VitypeEngine::new();
    type_keys(&mut engine, input)
}

fn vni(input: &str) -> String {
    let mut engine = VitypeEngine::new();
    engine.set_input_method(InputMethod::Vni);
    type_keys(&mut engine, input)
}

#[test]
fn vni_tone_then_escape_in_viet() {
    assert_eq!(vni("vie65"), "việ");
    assert_eq!(vni("vie655"), "viê5");
}

#[test]
fn vni_compound_horn_then_tone() {
    assert_eq!(vni("ngu7o7i2"), "người");
    assert_eq!(vni("nguoi72"), "người");
    assert_eq!(vni("truong7"), "trương");
    assert_eq!(vni("huou7"), "hươu");
    assert_eq!(vni("luu7"), "lưu");
    assert_eq!(vni("mua7"), "mưa");
    assert_eq!(vni("thuo7"), "thươ");
}

#[test]
fn vni_tone_orderings_converge() {
    assert_eq!(vni("hoan2h"), "hoành");
    assert_eq!(vni("hoanh2"), "hoành");
}

#[test]
fn vni_circumflex_moves_tone() {
    assert_eq!(vni("tuyet5"), "tuyẹt");
    assert_eq!(vni("tuyet56"), "tuyệt");
    assert_eq!(vni("tuye5t"), "tuyẹt");
    assert_eq!(vni("tuy5et6"), "tuyệt");
    assert_eq!(vni("tu5yet6"), "tuyệt");
}

#[test]
fn telex_compound_horn_then_tone() {
    assert_eq!(telex("nguoiwf"), "người");
    assert_eq!(telex("nuowcs"), "nước");
    assert_eq!(telex("truowngf"), "trường");
    assert_eq!(telex("truongwf"), "trường");
    assert_eq!(telex("muaw"), "mưa");
    assert_eq!(telex("quaw"), "quă");
    assert_eq!(telex("huouw"), "hươu");
}

#[test]
fn telex_words() {
    assert_eq!(telex("vieetj"), "việt");
    assert_eq!(telex("tieesng"), "tiếng");
    assert_eq!(telex("ddi"), "đi");
    assert_eq!(telex("dduowngf"), "đường");
    assert_eq!(telex("tw"), "tư");
    assert_eq!(telex("w"), "ư");
    assert_eq!(telex("ww"), "w");
    assert_eq!(telex("aa"), "â");
    assert_eq!(telex("aaa"), "aa");
    assert_eq!(telex("daua"), "dâu");
    assert_eq!(telex("hoao"), "hoao");
    assert_eq!(telex("thata"), "thât");
    assert_eq!(telex("gif"), "gì");
    assert_eq!(telex("giaf"), "già");
    assert_eq!(telex("quas"), "quá");
    assert_eq!(telex("ass"), "as");
    assert_eq!(telex("asz"), "a");
    assert_eq!(telex("ddd"), "dd");
    assert_eq!(telex("uoww"), "uow");
    assert_eq!(telex("a1b"), "a1b");
    assert_eq!(telex("xin chaof"), "xin chào");
}

#[test]
fn vni_foreign_word_lasts_to_the_boundary() {
    assert_eq!(vni("d9i"), "đi");
    assert_eq!(vni("device"), "device");
    assert_eq!(vni("device a6"), "device â");
}

#[test]
fn vni_tone_on_the_word_before_the_boundary() {
    let mut engine = VitypeEngine::new();
    engine.set_input_method(InputMethod::Vni);
    let mut output: Vec<char> = type_keys(&mut engine, "chan1 qua d9i").chars().collect();
    assert_eq!(output.iter().collect::<String>(), "chán qua đi");
    for _ in 0..3 {
        engine.delete_last_character();
        output.pop();
    }
    match engine.process("1") {
        Some(action) => {
            for _ in 0..action.delete_count {
                output.pop();
            }
            output.extend(action.text.chars());
        }
        None => output.push('1'),
    }
    assert_eq!(output.iter().collect::<String>(), "chán quá");
}

#[test]
fn vni_tone_on_illegal_cluster() {
    assert_eq!(vni("ae1"), "ae1");
    let mut engine = VitypeEngine::new();
    engine.set_input_method(InputMethod::Vni);
    engine.set_free_tone_placement(true);
    assert_eq!(type_keys(&mut engine, "ae1"), "áe");
}

#[test]
fn telex_tone_on_illegal_cluster() {
    assert_eq!(telex("aes"), "aes");
    let mut engine = VitypeEngine::new();
    engine.set_free_tone_placement(true);
    assert_eq!(type_keys(&mut engine, "aes"), "áe");
}
