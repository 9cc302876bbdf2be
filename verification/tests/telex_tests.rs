use vitype_core::{InputMethod, KeyTransformAction, VitypeEngine, WTransformKind};

fn action(delete_count: usize, text: &str) -> KeyTransformAction {
    KeyTransformAction { delete_count, text: text.to_string() }
}

fn type_keys(engine: &mut VitypeEngine, input: &str) -> String {
    let mut output: Vec<char> = Vec::new();
    for ch in input.chars() {
        let key = ch.to_string();
        match engine.process(&key) {
            Some(action) => {
                assert!(action.delete_count <= output.len());
                for _ in 0..action.delete_count {
                    output.pop();
                }
                output.extend(action.text.chars());
            }
            None => output.push(ch),
        }
    }
    output.iter().collect()
}

fn telex(input: &str) -> String {
    let mut engine = VitypeEngine::new();
    type_keys(&mut engine, input)
}

fn engine_after(input: &str) -> VitypeEngine {
    let mut engine = VitypeEngine::new();
    type_keys(&mut engine, input);
    engine
}

#[test]
fn telex_tones() {
    assert_eq!(telex("as"), "á");
    assert_eq!(telex("af"), "à");
    assert_eq!(telex("ar"), "ả");
    assert_eq!(telex("ax"), "ã");
    assert_eq!(telex("aj"), "ạ");
    assert_eq!(telex("asz"), "a");
    assert_eq!(telex("asf"), "à");
    assert_eq!(telex("AS"), "Á");
    assert_eq!(telex("aS"), "á");
    assert_eq!(telex("toans"), "toán");
    assert_eq!(telex("toasn"), "toán");
    assert_eq!(telex("tosan"), "toán");
}

#[test]
fn telex_tone_keys_without_a_vowel_are_letters() {
    assert_eq!(telex("s"), "s");
    assert_eq!(telex("sa"), "sa");
    assert_eq!(telex("xa"), "xa");
    assert_eq!(telex("ra"), "ra");
    assert_eq!(telex("xas"), "xá");
    assert_eq!(telex("jas"), "já");
    assert_eq!(telex("fas"), "fá");
    assert_eq!(telex("zaf"), "zà");
    assert_eq!(telex("az"), "az");
}

#[test]
fn telex_actions() {
    let mut engine = VitypeEngine::new();
    assert_eq!(engine.process("t"), None);
    assert_eq!(engine.process("o"), None);
    assert_eq!(engine.process("a"), None);
    assert_eq!(engine.process("n"), None);
    assert_eq!(engine.process("s"), Some(action(2, "án")));
    assert_eq!(engine.process("s"), Some(action(2, "ans")));
    assert_eq!(engine.process("s"), None);
    assert_eq!(engine.process(" "), None);
    assert_eq!(engine.process("w"), Some(action(0, "ư")));
    assert_eq!(engine.process("w"), Some(action(1, "w")));
    assert_eq!(engine.process("1"), None);
    assert_eq!(engine.process("d"), None);
    assert_eq!(engine.process("D"), Some(action(1, "đ")));
    assert_eq!(engine.process("D"), Some(action(1, "dD")));
}

#[test]
fn telex_circumflex() {
    assert_eq!(telex("aa"), "â");
    assert_eq!(telex("ee"), "ê");
    assert_eq!(telex("oo"), "ô");
    assert_eq!(telex("AA"), "Â");
    assert_eq!(telex("Aa"), "Â");
    assert_eq!(telex("aA"), "â");
    assert_eq!(telex("caan"), "cân");
    assert_eq!(telex("cana"), "cân");
    assert_eq!(telex("daua"), "dâu");
    assert_eq!(telex("toio"), "tôi");
    assert_eq!(telex("tieue"), "tiêu");
    assert_eq!(telex("ae"), "ae");
    assert_eq!(telex("oa"), "oa");
    assert_eq!(telex("hoao"), "hoao");
    assert_eq!(telex("nghienge"), "nghiêng");
    assert_eq!(telex("nghiengse"), "nghiếng");
}

#[test]
fn telex_circumflex_reaches_over_four_characters() {
    let mut engine = VitypeEngine::new();
    engine.set_free_tone_placement(true);
    assert_eq!(type_keys(&mut engine, "onghho"), "ônghh");
    let mut engine = VitypeEngine::new();
    engine.set_free_tone_placement(true);
    assert_eq!(type_keys(&mut engine, "onghhho"), "onghhho");
    assert_eq!(telex("onghho"), "onghho");
}

#[test]
fn telex_w() {
    assert_eq!(telex("aw"), "ă");
    assert_eq!(telex("ow"), "ơ");
    assert_eq!(telex("uw"), "ư");
    assert_eq!(telex("AW"), "Ă");
    assert_eq!(telex("tranw"), "trăn");
    assert_eq!(telex("hoiw"), "hơi");
    assert_eq!(telex("w"), "ư");
    assert_eq!(telex("W"), "Ư");
    assert_eq!(telex("tw"), "tư");
    assert_eq!(telex("nhw"), "như");
    assert_eq!(telex("ew"), "eư");
    assert_eq!(telex("oow"), "ơ");
    assert_eq!(telex("asw"), "ắ");
}

#[test]
fn telex_w_reaches_over_four_characters() {
    let mut engine = VitypeEngine::new();
    engine.set_free_tone_placement(true);
    assert_eq!(type_keys(&mut engine, "atbngw"), "ătbng");
    let mut engine = VitypeEngine::new();
    engine.set_free_tone_placement(true);
    assert_eq!(type_keys(&mut engine, "atbngtw"), "atbngtw");
    assert!(engine.foreign_mode);
}

#[test]
fn telex_w_search_on_a_word() {
    let mut engine = VitypeEngine::new();
    engine.buffer = "atrngt".chars().collect();
    assert_eq!(engine.find_last_transformable_vowel(6), None);
    assert_eq!(engine.find_last_transformable_vowel(5), Some((0, 'ă')));
    assert_eq!(engine.find_last_transformable_vowel(1), Some((0, 'ă')));
    assert_eq!(engine.find_last_transformable_vowel(0), None);
    engine.buffer = "Oaiưb".chars().collect();
    assert_eq!(engine.find_last_transformable_vowel(5), Some((3, 'ư')));
    assert_eq!(engine.find_last_transformable_vowel(3), Some((1, 'ă')));
    assert_eq!(engine.find_last_transformable_vowel(1), Some((0, 'Ơ')));
    engine.buffer = "ắbcdef".chars().collect();
    assert_eq!(engine.find_last_transformable_vowel(5), None);
}

#[test]
fn telex_compound_horns() {
    assert_eq!(telex("uow"), "ươ");
    assert_eq!(telex("uwow"), "ươ");
    assert_eq!(telex("thuow"), "thươ");
    assert_eq!(telex("nuowc"), "nươc");
    assert_eq!(telex("nuocw"), "nươc");
    assert_eq!(telex("truongw"), "trương");
    assert_eq!(telex("nguoiw"), "ngươi");
    assert_eq!(telex("huouw"), "hươu");
    assert_eq!(telex("luuw"), "lưu");
    assert_eq!(telex("ouw"), "ouw");
    let mut engine = VitypeEngine::new();
    engine.set_free_tone_placement(true);
    assert_eq!(type_keys(&mut engine, "ouw"), "ơu");
    assert_eq!(telex("muaw"), "mưa");
    assert_eq!(telex("MUAW"), "MƯA");
    assert_eq!(telex("quaw"), "quă");
    assert_eq!(telex("quow"), "quơ");
    let mut engine = VitypeEngine::new();
    engine.set_free_tone_placement(true);
    assert_eq!(type_keys(&mut engine, "uonghw"), "ươngh");
    let mut engine = VitypeEngine::new();
    engine.set_free_tone_placement(true);
    assert_eq!(type_keys(&mut engine, "uonghhw"), "uơnghh");
}

#[test]
fn telex_compound_horns_record_their_rule() {
    assert_eq!(engine_after("uow").last_w_transform_kind, WTransformKind::CompoundUow);
    assert_eq!(engine_after("huouw").last_w_transform_kind, WTransformKind::CompoundUow);
    assert_eq!(engine_after("uoiw").last_w_transform_kind, WTransformKind::CompoundUoiw);
    assert_eq!(
        engine_after("uongw").last_w_transform_kind,
        WTransformKind::CompoundUoFinalConsonantW
    );
    assert_eq!(engine_after("uaw").last_w_transform_kind, WTransformKind::CompoundUaw);
    assert_eq!(engine_after("uuw").last_w_transform_kind, WTransformKind::Unset);
    assert_eq!(engine_after("aw").last_w_transform_kind, WTransformKind::Unset);
    assert_eq!(engine_after("w").last_w_transform_kind, WTransformKind::Standalone);
    assert_eq!(engine_after("uow").last_transform_key, Some('w'));
    assert_eq!(engine_after("uoW").last_transform_key, Some('w'));
    assert_eq!(engine_after("aA").last_transform_key, Some('A'));
}

#[test]
fn telex_compound_horns_move_the_tone() {
    assert_eq!(telex("nguoifw"), "người");
    assert_eq!(telex("nguofiw"), "người");
    assert_eq!(telex("muonsw"), "mướn");
    assert_eq!(telex("thuongfw"), "thường");
    let mut engine = VitypeEngine::new();
    engine.set_auto_fix_tone(false);
    assert_eq!(type_keys(&mut engine, "nguofiw"), "ngừơi");
    let mut engine = VitypeEngine::new();
    engine.set_auto_fix_tone(false);
    assert_eq!(type_keys(&mut engine, "nguoifw"), "người");
}

#[test]
fn telex_escapes() {
    assert_eq!(telex("ass"), "as");
    assert_eq!(telex("aff"), "af");
    assert_eq!(telex("aaa"), "aa");
    assert_eq!(telex("eee"), "ee");
    assert_eq!(telex("ooo"), "oo");
    assert_eq!(telex("aww"), "aw");
    assert_eq!(telex("oww"), "ow");
    assert_eq!(telex("uww"), "uw");
    assert_eq!(telex("ww"), "w");
    assert_eq!(telex("Ww"), "W");
    assert_eq!(telex("wW"), "w");
    assert_eq!(telex("ddd"), "dd");
    assert_eq!(telex("Ddd"), "Dd");
    assert_eq!(telex("dDD"), "dD");
    assert_eq!(telex("DDD"), "DD");
    assert_eq!(telex("asS"), "aS");
    assert_eq!(telex("aaA"), "aA");
    assert_eq!(telex("canaa"), "cana");
    assert_eq!(telex("tranww"), "tranw");
}

#[test]
fn telex_compound_escapes() {
    assert_eq!(telex("uoww"), "uow");
    assert_eq!(telex("thuoww"), "thuow");
    assert_eq!(telex("nguoiww"), "nguoiw");
    assert_eq!(telex("truongww"), "truongw");
    assert_eq!(telex("muaww"), "muaw");
    assert_eq!(telex("huouww"), "huouw");
    assert_eq!(telex("luuww"), "luuw");
    assert_eq!(telex("uwow"), "ươ");
    assert_eq!(telex("uwoww"), "uow");
}

#[test]
fn telex_breve_after_u_comes_off_at_the_next_w() {
    assert_eq!(telex("quaws"), "quắ");
    assert_eq!(telex("quawsw"), "quáw");
    assert_eq!(telex("quawswf"), "quáwf");
}

#[test]
fn telex_word_after_an_escape_is_literal() {
    assert_eq!(telex("asss"), "ass");
    assert_eq!(telex("aaas"), "aas");
    assert_eq!(telex("dddd"), "ddd");
    assert_eq!(telex("aaaw"), "aaw");
    assert_eq!(telex("ass as"), "as á");
    assert_eq!(telex("aaa aa"), "aa â");
    assert_eq!(telex("wwa"), "wa");
    assert_eq!(telex("wwas"), "was");
}

#[test]
fn telex_w_that_would_leave_no_syllable_stays_a_letter() {
    assert_eq!(telex("tiw"), "tiư");
    assert_eq!(telex("tyw"), "tyw");
    assert_eq!(telex("tywas"), "tywas");
    let engine = engine_after("tyw");
    assert!(engine.foreign_mode);
    assert_eq!(engine.last_transform_key, None);
    assert_eq!(engine.last_w_transform_kind, WTransformKind::Unset);
    let mut engine = VitypeEngine::new();
    for key in ["t", "y"] {
        assert_eq!(engine.process(key), None);
    }
    assert_eq!(engine.process("w"), None);
    let mut engine = VitypeEngine::new();
    engine.set_free_tone_placement(true);
    assert_eq!(type_keys(&mut engine, "tyw"), "tyư");
}

#[test]
fn telex_stroke() {
    assert_eq!(telex("dd"), "đ");
    assert_eq!(telex("DD"), "Đ");
    assert_eq!(telex("Dd"), "Đ");
    assert_eq!(telex("dD"), "đ");
    assert_eq!(telex("ddi"), "đi");
    assert_eq!(telex("daud"), "đau");
    assert_eq!(telex("duongd"), "đuong");
    assert_eq!(telex("duonghd"), "duonghd");
    assert_eq!(telex("ad"), "ad");
    assert_eq!(telex("add"), "add");
}

#[test]
fn telex_foreign_words() {
    assert_eq!(telex("device"), "device");
    assert_eq!(telex("services"), "sẻvices");
    assert_eq!(telex("window"), "ưindow");
    assert_eq!(telex("wwindow"), "window");
    assert_eq!(telex("paymentf"), "paymentf");
    assert_eq!(telex("aes"), "aes");
    assert_eq!(telex("data"), "dât");
    assert_eq!(telex("dataa"), "data");
    assert_eq!(telex("thatae"), "thâte");
    assert_eq!(telex("thataes"), "thâtes");
}

#[test]
fn telex_sentences() {
    assert_eq!(telex("xin chaof cacs banj"), "xin chào các bạn");
    assert_eq!(telex("Vieetj Nam"), "Việt Nam");
    assert_eq!(telex("tieesng Vieejt"), "tiếng Việt");
    assert_eq!(telex("dduowngf ddi"), "đường đi");
    assert_eq!(telex("nguoiwf nuowcs ngoaif"), "người nước ngoài");
    assert_eq!(telex("gias trij"), "giá trị");
    assert_eq!(telex("quar quyeets"), "quả quyết");
    assert_eq!(telex("khuyur tay"), "khuỷu tay");
    assert_eq!(telex("a1b2"), "a1b2");
    assert_eq!(telex("as1às"), "á1á");
}

#[test]
fn telex_digits_end_a_word() {
    let mut engine = VitypeEngine::new();
    assert_eq!(type_keys(&mut engine, "as1"), "á1");
    assert!(engine.buffer.is_empty());
    assert_eq!(engine.history.len(), 2);
    assert_eq!(engine.input_method, InputMethod::Telex);
}
