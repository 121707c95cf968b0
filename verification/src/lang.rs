//! The supported language codes and the names of the languages, in English
//! and in each interface language.
use vstd::prelude::*;
use crate::text::str_eq;

verus! {

/// Position of a language code among `tr en de fr es it pt ru ar ja zh ko`,
/// or 12 for any other text.
pub open spec fn lang_index(code: Seq<char>) -> nat {
    if code == "tr"@ {
        0
    } else if code == "en"@ {
        1
    } else if code == "de"@ {
        2
    } else if code == "fr"@ {
        3
    } else if code == "es"@ {
        4
    } else if code == "it"@ {
        5
    } else if code == "pt"@ {
        6
    } else if code == "ru"@ {
        7
    } else if code == "ar"@ {
        8
    } else if code == "ja"@ {
        9
    } else if code == "zh"@ {
        10
    } else if code == "ko"@ {
        11
    } else {
        12
    }
}

pub fn language_index(code: &str) -> (r: usize)
    ensures
        r == lang_index(code@),
{
    if str_eq(code, "tr") {
        0
    } else if str_eq(code, "en") {
        1
    } else if str_eq(code, "de") {
        2
    } else if str_eq(code, "fr") {
        3
    } else if str_eq(code, "es") {
        4
    } else if str_eq(code, "it") {
        5
    } else if str_eq(code, "pt") {
        6
    } else if str_eq(code, "ru") {
        7
    } else if str_eq(code, "ar") {
        8
    } else if str_eq(code, "ja") {
        9
    } else if str_eq(code, "zh") {
        10
    } else if str_eq(code, "ko") {
        11
    } else {
        12
    }
}

/// One of the twelve supported language codes.
pub open spec fn spec_is_lang(code: Seq<char>) -> bool {
    lang_index(code) < 12
}

pub fn is_lang(code: &str) -> (r: bool)
    ensures
        r == spec_is_lang(code@),
{
    language_index(code) < 12
}

/// Row of the name tables used for an interface language: its own row, or
/// English for any other text.
pub open spec fn ui_row(ui: Seq<char>) -> nat {
    if lang_index(ui) == 12 {
        1
    } else {
        lang_index(ui)
    }
}

/// Column of a language code in the name tables: its position, or Turkish for
/// any other text.
pub open spec fn name_col(code: Seq<char>) -> nat {
    if lang_index(code) == 12 {
        0
    } else {
        lang_index(code)
    }
}

/// Name of language `col` written in language `row` (both in the order of
/// `lang_index`).
pub open spec fn name_cell(row: int, col: int) -> Seq<char> {
    if row == 0 {
        if col == 0 {
            "Türkçe"@
        } else if col == 1 {
            "İngilizce"@
        } else if col == 2 {
            "Almanca"@
        } else if col == 3 {
            "Fransızca"@
        } else if col == 4 {
            "İspanyolca"@
        } else if col == 5 {
            "İtalyanca"@
        } else if col == 6 {
            "Portekizce"@
        } else if col == 7 {
            "Rusça"@
        } else if col == 8 {
            "Arapça"@
        } else if col == 9 {
            "Japonca"@
        } else if col == 10 {
            "Çince"@
        } else {
            "Korece"@
        }
    } else if row == 1 {
        if col == 0 {
            "Turkish"@
        } else if col == 1 {
            "English"@
        } else if col == 2 {
            "German"@
        } else if col == 3 {
            "French"@
        } else if col == 4 {
            "Spanish"@
        } else if col == 5 {
            "Italian"@
        } else if col == 6 {
            "Portuguese"@
        } else if col == 7 {
            "Russian"@
        } else if col == 8 {
            "Arabic"@
        } else if col == 9 {
            "Japanese"@
        } else if col == 10 {
            "Chinese"@
        } else {
            "Korean"@
        }
    } else if row == 2 {
        if col == 0 {
            "Türkisch"@
        } else if col == 1 {
            "Englisch"@
        } else if col == 2 {
            "Deutsch"@
        } else if col == 3 {
            "Französisch"@
        } else if col == 4 {
            "Spanisch"@
        } else if col == 5 {
            "Italienisch"@
        } else if col == 6 {
            "Portugiesisch"@
        } else if col == 7 {
            "Russisch"@
        } else if col == 8 {
            "Arabisch"@
        } else if col == 9 {
            "Japanisch"@
        } else if col == 10 {
            "Chinesisch"@
        } else {
            "Koreanisch"@
        }
    } else if row == 3 {
        if col == 0 {
            "turc"@
        } else if col == 1 {
            "anglais"@
        } else if col == 2 {
            "allemand"@
        } else if col == 3 {
            "français"@
        } else if col == 4 {
            "espagnol"@
        } else if col == 5 {
            "italien"@
        } else if col == 6 {
            "portugais"@
        } else if col == 7 {
            "russe"@
        } else if col == 8 {
            "arabe"@
        } else if col == 9 {
            "japonais"@
        } else if col == 10 {
            "chinois"@
        } else {
            "coréen"@
        }
    } else if row == 4 {
        if col == 0 {
            "turco"@
        } else if col == 1 {
            "inglés"@
        } else if col == 2 {
            "alemán"@
        } else if col == 3 {
            "francés"@
        } else if col == 4 {
            "español"@
        } else if col == 5 {
            "italiano"@
        } else if col == 6 {
            "portugués"@
        } else if col == 7 {
            "ruso"@
        } else if col == 8 {
            "árabe"@
        } else if col == 9 {
            "japonés"@
        } else if col == 10 {
            "chino"@
        } else {
            "coreano"@
        }
    } else if row == 5 {
        if col == 0 {
            "turco"@
        } else if col == 1 {
            "inglese"@
        } else if col == 2 {
            "tedesco"@
        } else if col == 3 {
            "francese"@
        } else if col == 4 {
            "spagnolo"@
        } else if col == 5 {
            "italiano"@
        } else if col == 6 {
            "portoghese"@
        } else if col == 7 {
            "russo"@
        } else if col == 8 {
            "arabo"@
        } else if col == 9 {
            "giapponese"@
        } else if col == 10 {
            "cinese"@
        } else {
            "coreano"@
        }
    } else if row == 6 {
        if col == 0 {
            "turco"@
        } else if col == 1 {
            "inglês"@
        } else if col == 2 {
            "alemão"@
        } else if col == 3 {
            "francês"@
        } else if col == 4 {
            "espanhol"@
        } else if col == 5 {
            "italiano"@
        } else if col == 6 {
            "português"@
        } else if col == 7 {
            "russo"@
        } else if col == 8 {
            "árabe"@
        } else if col == 9 {
            "japonês"@
        } else if col == 10 {
            "chinês"@
        } else {
            "coreano"@
        }
    } else if row == 7 {
        if col == 0 {
            "турецкий"@
        } else if col == 1 {
            "английский"@
        } else if col == 2 {
            "немецкий"@
        } else if col == 3 {
            "французский"@
        } else if col == 4 {
            "испанский"@
        } else if col == 5 {
            "итальянский"@
        } else if col == 6 {
            "португальский"@
        } else if col == 7 {
            "русский"@
        } else if col == 8 {
            "арабский"@
        } else if col == 9 {
            "японский"@
        } else if col == 10 {
            "китайский"@
        } else {
            "корейский"@
        }
    } else if row == 8 {
        if col == 0 {
            "التركية"@
        } else if col == 1 {
            "الإنجليزية"@
        } else if col == 2 {
            "الألمانية"@
        } else if col == 3 {
            "الفرنسية"@
        } else if col == 4 {
            "الإسبانية"@
        } else if col == 5 {
            "الإيطالية"@
        } else if col == 6 {
            "البرتغالية"@
        } else if col == 7 {
            "الروسية"@
        } else if col == 8 {
            "العربية"@
        } else if col == 9 {
            "اليابانية"@
        } else if col == 10 {
            "الصينية"@
        } else {
            "الكورية"@
        }
    } else if row == 9 {
        if col == 0 {
            "トルコ語"@
        } else if col == 1 {
            "英語"@
        } else if col == 2 {
            "ドイツ語"@
        } else if col == 3 {
            "フランス語"@
        } else if col == 4 {
            "スペイン語"@
        } else if col == 5 {
            "イタリア語"@
        } else if col == 6 {
            "ポルトガル語"@
        } else if col == 7 {
            "ロシア語"@
        } else if col == 8 {
            "アラビア語"@
        } else if col == 9 {
            "日本語"@
        } else if col == 10 {
            "中国語"@
        } else {
            "韓国語"@
        }
    } else if row == 10 {
        if col == 0 {
            "土耳其语"@
        } else if col == 1 {
            "英语"@
        } else if col == 2 {
            "德语"@
        } else if col == 3 {
            "法语"@
        } else if col == 4 {
            "西班牙语"@
        } else if col == 5 {
            "意大利语"@
        } else if col == 6 {
            "葡萄牙语"@
        } else if col == 7 {
            "俄语"@
        } else if col == 8 {
            "阿拉伯语"@
        } else if col == 9 {
            "日语"@
        } else if col == 10 {
            "中文"@
        } else {
            "韩语"@
        }
    } else {
        if col == 0 {
            "터키어"@
        } else if col == 1 {
            "영어"@
        } else if col == 2 {
            "독일어"@
        } else if col == 3 {
            "프랑스어"@
        } else if col == 4 {
            "스페인어"@
        } else if col == 5 {
            "이탈리아어"@
        } else if col == 6 {
            "포르투갈어"@
        } else if col == 7 {
            "러시아어"@
        } else if col == 8 {
            "아랍어"@
        } else if col == 9 {
            "일본어"@
        } else if col == 10 {
            "중국어"@
        } else {
            "한국어"@
        }
    }
}

pub fn name_cell_text(row: usize, col: usize) -> (r: &'static str)
    requires
        row < 12,
        col < 12,
    ensures
        r@ == name_cell(row as int, col as int),
{
    if row == 0 {
        if col == 0 {
            "Türkçe"
        } else if col == 1 {
            "İngilizce"
        } else if col == 2 {
            "Almanca"
        } else if col == 3 {
            "Fransızca"
        } else if col == 4 {
            "İspanyolca"
        } else if col == 5 {
            "İtalyanca"
        } else if col == 6 {
            "Portekizce"
        } else if col == 7 {
            "Rusça"
        } else if col == 8 {
            "Arapça"
        } else if col == 9 {
            "Japonca"
        } else if col == 10 {
            "Çince"
        } else {
            "Korece"
        }
    } else if row == 1 {
        if col == 0 {
            "Turkish"
        } else if col == 1 {
            "English"
        } else if col == 2 {
            "German"
        } else if col == 3 {
            "French"
        } else if col == 4 {
            "Spanish"
        } else if col == 5 {
            "Italian"
        } else if col == 6 {
            "Portuguese"
        } else if col == 7 {
            "Russian"
        } else if col == 8 {
            "Arabic"
        } else if col == 9 {
            "Japanese"
        } else if col == 10 {
            "Chinese"
        } else {
            "Korean"
        }
    } else if row == 2 {
        if col == 0 {
            "Türkisch"
        } else if col == 1 {
            "Englisch"
        } else if col == 2 {
            "Deutsch"
        } else if col == 3 {
            "Französisch"
        } else if col == 4 {
            "Spanisch"
        } else if col == 5 {
            "Italienisch"
        } else if col == 6 {
            "Portugiesisch"
        } else if col == 7 {
            "Russisch"
        } else if col == 8 {
            "Arabisch"
        } else if col == 9 {
            "Japanisch"
        } else if col == 10 {
            "Chinesisch"
        } else {
            "Koreanisch"
        }
    } else if row == 3 {
        if col == 0 {
            "turc"
        } else if col == 1 {
            "anglais"
        } else if col == 2 {
            "allemand"
        } else if col == 3 {
            "français"
        } else if col == 4 {
            "espagnol"
        } else if col == 5 {
            "italien"
        } else if col == 6 {
            "portugais"
        } else if col == 7 {
            "russe"
        } else if col == 8 {
            "arabe"
        } else if col == 9 {
            "japonais"
        } else if col == 10 {
            "chinois"
        } else {
            "coréen"
        }
    } else if row == 4 {
        if col == 0 {
            "turco"
        } else if col == 1 {
            "inglés"
        } else if col == 2 {
            "alemán"
        } else if col == 3 {
            "francés"
        } else if col == 4 {
            "español"
        } else if col == 5 {
            "italiano"
        } else if col == 6 {
            "portugués"
        } else if col == 7 {
            "ruso"
        } else if col == 8 {
            "árabe"
        } else if col == 9 {
            "japonés"
        } else if col == 10 {
            "chino"
        } else {
            "coreano"
        }
    } else if row == 5 {
        if col == 0 {
            "turco"
        } else if col == 1 {
            "inglese"
        } else if col == 2 {
            "tedesco"
        } else if col == 3 {
            "francese"
        } else if col == 4 {
            "spagnolo"
        } else if col == 5 {
            "italiano"
        } else if col == 6 {
            "portoghese"
        } else if col == 7 {
            "russo"
        } else if col == 8 {
            "arabo"
        } else if col == 9 {
            "giapponese"
        } else if col == 10 {
            "cinese"
        } else {
            "coreano"
        }
    } else if row == 6 {
        if col == 0 {
            "turco"
        } else if col == 1 {
            "inglês"
        } else if col == 2 {
            "alemão"
        } else if col == 3 {
            "francês"
        } else if col == 4 {
            "espanhol"
        } else if col == 5 {
            "italiano"
        } else if col == 6 {
            "português"
        } else if col == 7 {
            "russo"
        } else if col == 8 {
            "árabe"
        } else if col == 9 {
            "japonês"
        } else if col == 10 {
            "chinês"
        } else {
            "coreano"
        }
    } else if row == 7 {
        if col == 0 {
            "турецкий"
        } else if col == 1 {
            "английский"
        } else if col == 2 {
            "немецкий"
        } else if col == 3 {
            "французский"
        } else if col == 4 {
            "испанский"
        } else if col == 5 {
            "итальянский"
        } else if col == 6 {
            "португальский"
        } else if col == 7 {
            "русский"
        } else if col == 8 {
            "арабский"
        } else if col == 9 {
            "японский"
        } else if col == 10 {
            "китайский"
        } else {
            "корейский"
        }
    } else if row == 8 {
        if col == 0 {
            "التركية"
        } else if col == 1 {
            "الإنجليزية"
        } else if col == 2 {
            "الألمانية"
        } else if col == 3 {
            "الفرنسية"
        } else if col == 4 {
            "الإسبانية"
        } else if col == 5 {
            "الإيطالية"
        } else if col == 6 {
            "البرتغالية"
        } else if col == 7 {
            "الروسية"
        } else if col == 8 {
            "العربية"
        } else if col == 9 {
            "اليابانية"
        } else if col == 10 {
            "الصينية"
        } else {
            "الكورية"
        }
    } else if row == 9 {
        if col == 0 {
            "トルコ語"
        } else if col == 1 {
            "英語"
        } else if col == 2 {
            "ドイツ語"
        } else if col == 3 {
            "フランス語"
        } else if col == 4 {
            "スペイン語"
        } else if col == 5 {
            "イタリア語"
        } else if col == 6 {
            "ポルトガル語"
        } else if col == 7 {
            "ロシア語"
        } else if col == 8 {
            "アラビア語"
        } else if col == 9 {
            "日本語"
        } else if col == 10 {
            "中国語"
        } else {
            "韓国語"
        }
    } else if row == 10 {
        if col == 0 {
            "土耳其语"
        } else if col == 1 {
            "英语"
        } else if col == 2 {
            "德语"
        } else if col == 3 {
            "法语"
        } else if col == 4 {
            "西班牙语"
        } else if col == 5 {
            "意大利语"
        } else if col == 6 {
            "葡萄牙语"
        } else if col == 7 {
            "俄语"
        } else if col == 8 {
            "阿拉伯语"
        } else if col == 9 {
            "日语"
        } else if col == 10 {
            "中文"
        } else {
            "韩语"
        }
    } else {
        if col == 0 {
            "터키어"
        } else if col == 1 {
            "영어"
        } else if col == 2 {
            "독일어"
        } else if col == 3 {
            "프랑스어"
        } else if col == 4 {
            "스페인어"
        } else if col == 5 {
            "이탈리아어"
        } else if col == 6 {
            "포르투갈어"
        } else if col == 7 {
            "러시아어"
        } else if col == 8 {
            "아랍어"
        } else if col == 9 {
            "일본어"
        } else if col == 10 {
            "중국어"
        } else {
            "한국어"
        }
    }
}

/// Name of the language `code` written in the interface language `ui`.
pub open spec fn spec_localized_name(code: Seq<char>, ui: Seq<char>) -> Seq<char> {
    name_cell(ui_row(ui) as int, name_col(code) as int)
}

/// The name of language `code` in the interface language `ui`; an unknown
/// interface language gives English, an unknown code gives Turkish.
pub fn localized_name(code: &str, ui: &str) -> (r: &'static str)
    ensures
        r@ == spec_localized_name(code@, ui@),
{
    let u = language_index(ui);
    let row = if u == 12 {
        1
    } else {
        u
    };
    let c = language_index(code);
    let col = if c == 12 {
        0
    } else {
        c
    };
    name_cell_text(row, col)
}

/// English name of a language code; any other text gives `Turkish`.
pub open spec fn spec_language_name(code: Seq<char>) -> Seq<char> {
    name_cell(1, name_col(code) as int)
}

pub fn language_name(code: &str) -> (r: &'static str)
    ensures
        r@ == spec_language_name(code@),
{
    let c = language_index(code);
    let col = if c == 12 {
        0
    } else {
        c
    };
    name_cell_text(1, col)
}

/// The English name of a code is its name in the English interface.
pub proof fn lemma_language_name_is_english_name(code: Seq<char>)
    ensures
        spec_language_name(code) == spec_localized_name(code, "en"@),
{
    reveal_strlit("en");
    reveal_strlit("tr");
    assert("en"@ != "tr"@) by {
        assert("en"@[0] != "tr"@[0]);
    }
    assert(lang_index("en"@) == 1);
}


/// An unsupported language code is named as Turkish, and under the English
/// interface, or an unsupported one, a language is named as in English.
pub proof fn lemma_localized_name_fallbacks(code: Seq<char>, ui: Seq<char>)
    ensures
        !spec_is_lang(code) ==> spec_localized_name(code, ui) == spec_localized_name("tr"@, ui),
        (ui == "en"@ || !spec_is_lang(ui)) ==> spec_localized_name(code, ui) == spec_language_name(code),
{
    reveal_strlit("en");
    reveal_strlit("tr");
    assert(lang_index("tr"@) == 0);
    lemma_language_name_is_english_name(code);
    if ui == "en"@ {
        assert("en"@ != "tr"@) by {
            assert("en"@[0] != "tr"@[0]);
        }
        assert(lang_index(ui) == 1);
    }
}



/// In every interface language the twelve languages have twelve different
/// names.
pub proof fn lemma_names_distinct(row: int, i: int, j: int)
    requires
        0 <= row < 12,
        0 <= i < 12,
        0 <= j < 12,
        i != j,
    ensures
        name_cell(row, i) != name_cell(row, j),
{
    if row == 0 {
        lemma_row_0_distinct();
    }
    if row == 1 {
        lemma_row_1_distinct();
    }
    if row == 2 {
        lemma_row_2_distinct();
    }
    if row == 3 {
        lemma_row_3_distinct();
    }
    if row == 4 {
        lemma_row_4_distinct();
    }
    if row == 5 {
        lemma_row_5_distinct();
    }
    if row == 6 {
        lemma_row_6_distinct();
    }
    if row == 7 {
        lemma_row_7_distinct();
    }
    if row == 8 {
        lemma_row_8_distinct();
    }
    if row == 9 {
        lemma_row_9_distinct();
    }
    if row == 10 {
        lemma_row_10_distinct();
    }
    if row == 11 {
        lemma_row_11_distinct();
    }
}

/// Two different supported languages never get the same name, whatever the
/// interface language.
pub proof fn lemma_localized_names_distinct(a: Seq<char>, b: Seq<char>, ui: Seq<char>)
    requires
        spec_is_lang(a),
        spec_is_lang(b),
        a != b,
    ensures
        spec_localized_name(a, ui) != spec_localized_name(b, ui),
{
    assert(lang_index(a) != lang_index(b));
    lemma_names_distinct(ui_row(ui) as int, name_col(a) as int, name_col(b) as int);
}

proof fn lemma_row_0_distinct()
    ensures
        forall|i: int, j: int| 0 <= i < 12 && 0 <= j < 12 && i != j ==> name_cell(0, i) != name_cell(0, j),
{
    reveal_strlit("Türkçe");
    reveal_strlit("İngilizce");
    reveal_strlit("Almanca");
    reveal_strlit("Fransızca");
    reveal_strlit("İspanyolca");
    reveal_strlit("İtalyanca");
    reveal_strlit("Portekizce");
    reveal_strlit("Rusça");
    reveal_strlit("Arapça");
    reveal_strlit("Japonca");
    reveal_strlit("Çince");
    reveal_strlit("Korece");
    assert(name_cell(0, 0).len() != name_cell(0, 1).len());
    assert(name_cell(0, 0).len() != name_cell(0, 2).len());
    assert(name_cell(0, 0).len() != name_cell(0, 3).len());
    assert(name_cell(0, 0).len() != name_cell(0, 4).len());
    assert(name_cell(0, 0).len() != name_cell(0, 5).len());
    assert(name_cell(0, 0).len() != name_cell(0, 6).len());
    assert(name_cell(0, 0).len() != name_cell(0, 7).len());
    assert(name_cell(0, 0)[0] != name_cell(0, 8)[0]);
    assert(name_cell(0, 0).len() != name_cell(0, 9).len());
    assert(name_cell(0, 0).len() != name_cell(0, 10).len());
    assert(name_cell(0, 0)[0] != name_cell(0, 11)[0]);
    assert(name_cell(0, 1).len() != name_cell(0, 2).len());
    assert(name_cell(0, 1)[0] != name_cell(0, 3)[0]);
    assert(name_cell(0, 1).len() != name_cell(0, 4).len());
    assert(name_cell(0, 1)[1] != name_cell(0, 5)[1]);
    assert(name_cell(0, 1).len() != name_cell(0, 6).len());
    assert(name_cell(0, 1).len() != name_cell(0, 7).len());
    assert(name_cell(0, 1).len() != name_cell(0, 8).len());
    assert(name_cell(0, 1).len() != name_cell(0, 9).len());
    assert(name_cell(0, 1).len() != name_cell(0, 10).len());
    assert(name_cell(0, 1).len() != name_cell(0, 11).len());
    assert(name_cell(0, 2).len() != name_cell(0, 3).len());
    assert(name_cell(0, 2).len() != name_cell(0, 4).len());
    assert(name_cell(0, 2).len() != name_cell(0, 5).len());
    assert(name_cell(0, 2).len() != name_cell(0, 6).len());
    assert(name_cell(0, 2).len() != name_cell(0, 7).len());
    assert(name_cell(0, 2).len() != name_cell(0, 8).len());
    assert(name_cell(0, 2)[0] != name_cell(0, 9)[0]);
    assert(name_cell(0, 2).len() != name_cell(0, 10).len());
    assert(name_cell(0, 2).len() != name_cell(0, 11).len());
    assert(name_cell(0, 3).len() != name_cell(0, 4).len());
    assert(name_cell(0, 3)[0] != name_cell(0, 5)[0]);
    assert(name_cell(0, 3).len() != name_cell(0, 6).len());
    assert(name_cell(0, 3).len() != name_cell(0, 7).len());
    assert(name_cell(0, 3).len() != name_cell(0, 8).len());
    assert(name_cell(0, 3).len() != name_cell(0, 9).len());
    assert(name_cell(0, 3).len() != name_cell(0, 10).len());
    assert(name_cell(0, 3).len() != name_cell(0, 11).len());
    assert(name_cell(0, 4).len() != name_cell(0, 5).len());
    assert(name_cell(0, 4)[0] != name_cell(0, 6)[0]);
    assert(name_cell(0, 4).len() != name_cell(0, 7).len());
    assert(name_cell(0, 4).len() != name_cell(0, 8).len());
    assert(name_cell(0, 4).len() != name_cell(0, 9).len());
    assert(name_cell(0, 4).len() != name_cell(0, 10).len());
    assert(name_cell(0, 4).len() != name_cell(0, 11).len());
    assert(name_cell(0, 5).len() != name_cell(0, 6).len());
    assert(name_cell(0, 5).len() != name_cell(0, 7).len());
    assert(name_cell(0, 5).len() != name_cell(0, 8).len());
    assert(name_cell(0, 5).len() != name_cell(0, 9).len());
    assert(name_cell(0, 5).len() != name_cell(0, 10).len());
    assert(name_cell(0, 5).len() != name_cell(0, 11).len());
    assert(name_cell(0, 6).len() != name_cell(0, 7).len());
    assert(name_cell(0, 6).len() != name_cell(0, 8).len());
    assert(name_cell(0, 6).len() != name_cell(0, 9).len());
    assert(name_cell(0, 6).len() != name_cell(0, 10).len());
    assert(name_cell(0, 6).len() != name_cell(0, 11).len());
    assert(name_cell(0, 7).len() != name_cell(0, 8).len());
    assert(name_cell(0, 7).len() != name_cell(0, 9).len());
    assert(name_cell(0, 7)[0] != name_cell(0, 10)[0]);
    assert(name_cell(0, 7).len() != name_cell(0, 11).len());
    assert(name_cell(0, 8).len() != name_cell(0, 9).len());
    assert(name_cell(0, 8).len() != name_cell(0, 10).len());
    assert(name_cell(0, 8)[0] != name_cell(0, 11)[0]);
    assert(name_cell(0, 9).len() != name_cell(0, 10).len());
    assert(name_cell(0, 9).len() != name_cell(0, 11).len());
    assert(name_cell(0, 10).len() != name_cell(0, 11).len());
}

proof fn lemma_row_1_distinct()
    ensures
        forall|i: int, j: int| 0 <= i < 12 && 0 <= j < 12 && i != j ==> name_cell(1, i) != name_cell(1, j),
{
    reveal_strlit("Turkish");
    reveal_strlit("English");
    reveal_strlit("German");
    reveal_strlit("French");
    reveal_strlit("Spanish");
    reveal_strlit("Italian");
    reveal_strlit("Portuguese");
    reveal_strlit("Russian");
    reveal_strlit("Arabic");
    reveal_strlit("Japanese");
    reveal_strlit("Chinese");
    reveal_strlit("Korean");
    assert(name_cell(1, 0)[0] != name_cell(1, 1)[0]);
    assert(name_cell(1, 0).len() != name_cell(1, 2).len());
    assert(name_cell(1, 0).len() != name_cell(1, 3).len());
    assert(name_cell(1, 0)[0] != name_cell(1, 4)[0]);
    assert(name_cell(1, 0)[0] != name_cell(1, 5)[0]);
    assert(name_cell(1, 0).len() != name_cell(1, 6).len());
    assert(name_cell(1, 0)[0] != name_cell(1, 7)[0]);
    assert(name_cell(1, 0).len() != name_cell(1, 8).len());
    assert(name_cell(1, 0).len() != name_cell(1, 9).len());
    assert(name_cell(1, 0)[0] != name_cell(1, 10)[0]);
    assert(name_cell(1, 0).len() != name_cell(1, 11).len());
    assert(name_cell(1, 1).len() != name_cell(1, 2).len());
    assert(name_cell(1, 1).len() != name_cell(1, 3).len());
    assert(name_cell(1, 1)[0] != name_cell(1, 4)[0]);
    assert(name_cell(1, 1)[0] != name_cell(1, 5)[0]);
    assert(name_cell(1, 1).len() != name_cell(1, 6).len());
    assert(name_cell(1, 1)[0] != name_cell(1, 7)[0]);
    assert(name_cell(1, 1).len() != name_cell(1, 8).len());
    assert(name_cell(1, 1).len() != name_cell(1, 9).len());
    assert(name_cell(1, 1)[0] != name_cell(1, 10)[0]);
    assert(name_cell(1, 1).len() != name_cell(1, 11).len());
    assert(name_cell(1, 2)[0] != name_cell(1, 3)[0]);
    assert(name_cell(1, 2).len() != name_cell(1, 4).len());
    assert(name_cell(1, 2).len() != name_cell(1, 5).len());
    assert(name_cell(1, 2).len() != name_cell(1, 6).len());
    assert(name_cell(1, 2).len() != name_cell(1, 7).len());
    assert(name_cell(1, 2)[0] != name_cell(1, 8)[0]);
    assert(name_cell(1, 2).len() != name_cell(1, 9).len());
    assert(name_cell(1, 2).len() != name_cell(1, 10).len());
    assert(name_cell(1, 2)[0] != name_cell(1, 11)[0]);
    assert(name_cell(1, 3).len() != name_cell(1, 4).len());
    assert(name_cell(1, 3).len() != name_cell(1, 5).len());
    assert(name_cell(1, 3).len() != name_cell(1, 6).len());
    assert(name_cell(1, 3).len() != name_cell(1, 7).len());
    assert(name_cell(1, 3)[0] != name_cell(1, 8)[0]);
    assert(name_cell(1, 3).len() != name_cell(1, 9).len());
    assert(name_cell(1, 3).len() != name_cell(1, 10).len());
    assert(name_cell(1, 3)[0] != name_cell(1, 11)[0]);
    assert(name_cell(1, 4)[0] != name_cell(1, 5)[0]);
    assert(name_cell(1, 4).len() != name_cell(1, 6).len());
    assert(name_cell(1, 4)[0] != name_cell(1, 7)[0]);
    assert(name_cell(1, 4).len() != name_cell(1, 8).len());
    assert(name_cell(1, 4).len() != name_cell(1, 9).len());
    assert(name_cell(1, 4)[0] != name_cell(1, 10)[0]);
    assert(name_cell(1, 4).len() != name_cell(1, 11).len());
    assert(name_cell(1, 5).len() != name_cell(1, 6).len());
    assert(name_cell(1, 5)[0] != name_cell(1, 7)[0]);
    assert(name_cell(1, 5).len() != name_cell(1, 8).len());
    assert(name_cell(1, 5).len() != name_cell(1, 9).len());
    assert(name_cell(1, 5)[0] != name_cell(1, 10)[0]);
    assert(name_cell(1, 5).len() != name_cell(1, 11).len());
    assert(name_cell(1, 6).len() != name_cell(1, 7).len());
    assert(name_cell(1, 6).len() != name_cell(1, 8).len());
    assert(name_cell(1, 6).len() != name_cell(1, 9).len());
    assert(name_cell(1, 6).len() != name_cell(1, 10).len());
    assert(name_cell(1, 6).len() != name_cell(1, 11).len());
    assert(name_cell(1, 7).len() != name_cell(1, 8).len());
    assert(name_cell(1, 7).len() != name_cell(1, 9).len());
    assert(name_cell(1, 7)[0] != name_cell(1, 10)[0]);
    assert(name_cell(1, 7).len() != name_cell(1, 11).len());
    assert(name_cell(1, 8).len() != name_cell(1, 9).len());
    assert(name_cell(1, 8).len() != name_cell(1, 10).len());
    assert(name_cell(1, 8)[0] != name_cell(1, 11)[0]);
    assert(name_cell(1, 9).len() != name_cell(1, 10).len());
    assert(name_cell(1, 9).len() != name_cell(1, 11).len());
    assert(name_cell(1, 10).len() != name_cell(1, 11).len());
}

proof fn lemma_row_2_distinct()
    ensures
        forall|i: int, j: int| 0 <= i < 12 && 0 <= j < 12 && i != j ==> name_cell(2, i) != name_cell(2, j),
{
    reveal_strlit("Türkisch");
    reveal_strlit("Englisch");
    reveal_strlit("Deutsch");
    reveal_strlit("Französisch");
    reveal_strlit("Spanisch");
    reveal_strlit("Italienisch");
    reveal_strlit("Portugiesisch");
    reveal_strlit("Russisch");
    reveal_strlit("Arabisch");
    reveal_strlit("Japanisch");
    reveal_strlit("Chinesisch");
    reveal_strlit("Koreanisch");
    assert(name_cell(2, 0)[0] != name_cell(2, 1)[0]);
    assert(name_cell(2, 0).len() != name_cell(2, 2).len());
    assert(name_cell(2, 0).len() != name_cell(2, 3).len());
    assert(name_cell(2, 0)[0] != name_cell(2, 4)[0]);
    assert(name_cell(2, 0).len() != name_cell(2, 5).len());
    assert(name_cell(2, 0).len() != name_cell(2, 6).len());
    assert(name_cell(2, 0)[0] != name_cell(2, 7)[0]);
    assert(name_cell(2, 0)[0] != name_cell(2, 8)[0]);
    assert(name_cell(2, 0).len() != name_cell(2, 9).len());
    assert(name_cell(2, 0).len() != name_cell(2, 10).len());
    assert(name_cell(2, 0).len() != name_cell(2, 11).len());
    assert(name_cell(2, 1).len() != name_cell(2, 2).len());
    assert(name_cell(2, 1).len() != name_cell(2, 3).len());
    assert(name_cell(2, 1)[0] != name_cell(2, 4)[0]);
    assert(name_cell(2, 1).len() != name_cell(2, 5).len());
    assert(name_cell(2, 1).len() != name_cell(2, 6).len());
    assert(name_cell(2, 1)[0] != name_cell(2, 7)[0]);
    assert(name_cell(2, 1)[0] != name_cell(2, 8)[0]);
    assert(name_cell(2, 1).len() != name_cell(2, 9).len());
    assert(name_cell(2, 1).len() != name_cell(2, 10).len());
    assert(name_cell(2, 1).len() != name_cell(2, 11).len());
    assert(name_cell(2, 2).len() != name_cell(2, 3).len());
    assert(name_cell(2, 2).len() != name_cell(2, 4).len());
    assert(name_cell(2, 2).len() != name_cell(2, 5).len());
    assert(name_cell(2, 2).len() != name_cell(2, 6).len());
    assert(name_cell(2, 2).len() != name_cell(2, 7).len());
    assert(name_cell(2, 2).len() != name_cell(2, 8).len());
    assert(name_cell(2, 2).len() != name_cell(2, 9).len());
    assert(name_cell(2, 2).len() != name_cell(2, 10).len());
    assert(name_cell(2, 2).len() != name_cell(2, 11).len());
    assert(name_cell(2, 3).len() != name_cell(2, 4).len());
    assert(name_cell(2, 3)[0] != name_cell(2, 5)[0]);
    assert(name_cell(2, 3).len() != name_cell(2, 6).len());
    assert(name_cell(2, 3).len() != name_cell(2, 7).len());
    assert(name_cell(2, 3).len() != name_cell(2, 8).len());
    assert(name_cell(2, 3).len() != name_cell(2, 9).len());
    assert(name_cell(2, 3).len() != name_cell(2, 10).len());
    assert(name_cell(2, 3).len() != name_cell(2, 11).len());
    assert(name_cell(2, 4).len() != name_cell(2, 5).len());
    assert(name_cell(2, 4).len() != name_cell(2, 6).len());
    assert(name_cell(2, 4)[0] != name_cell(2, 7)[0]);
    assert(name_cell(2, 4)[0] != name_cell(2, 8)[0]);
    assert(name_cell(2, 4).len() != name_cell(2, 9).len());
    assert(name_cell(2, 4).len() != name_cell(2, 10).len());
    assert(name_cell(2, 4).len() != name_cell(2, 11).len());
    assert(name_cell(2, 5).len() != name_cell(2, 6).len());
    assert(name_cell(2, 5).len() != name_cell(2, 7).len());
    assert(name_cell(2, 5).len() != name_cell(2, 8).len());
    assert(name_cell(2, 5).len() != name_cell(2, 9).len());
    assert(name_cell(2, 5).len() != name_cell(2, 10).len());
    assert(name_cell(2, 5).len() != name_cell(2, 11).len());
    assert(name_cell(2, 6).len() != name_cell(2, 7).len());
    assert(name_cell(2, 6).len() != name_cell(2, 8).len());
    assert(name_cell(2, 6).len() != name_cell(2, 9).len());
    assert(name_cell(2, 6).len() != name_cell(2, 10).len());
    assert(name_cell(2, 6).len() != name_cell(2, 11).len());
    assert(name_cell(2, 7)[0] != name_cell(2, 8)[0]);
    assert(name_cell(2, 7).len() != name_cell(2, 9).len());
    assert(name_cell(2, 7).len() != name_cell(2, 10).len());
    assert(name_cell(2, 7).len() != name_cell(2, 11).len());
    assert(name_cell(2, 8).len() != name_cell(2, 9).len());
    assert(name_cell(2, 8).len() != name_cell(2, 10).len());
    assert(name_cell(2, 8).len() != name_cell(2, 11).len());
    assert(name_cell(2, 9).len() != name_cell(2, 10).len());
    assert(name_cell(2, 9).len() != name_cell(2, 11).len());
    assert(name_cell(2, 10)[0] != name_cell(2, 11)[0]);
}

proof fn lemma_row_3_distinct()
    ensures
        forall|i: int, j: int| 0 <= i < 12 && 0 <= j < 12 && i != j ==> name_cell(3, i) != name_cell(3, j),
{
    reveal_strlit("turc");
    reveal_strlit("anglais");
    reveal_strlit("allemand");
    reveal_strlit("français");
    reveal_strlit("espagnol");
    reveal_strlit("italien");
    reveal_strlit("portugais");
    reveal_strlit("russe");
    reveal_strlit("arabe");
    reveal_strlit("japonais");
    reveal_strlit("chinois");
    reveal_strlit("coréen");
    assert(name_cell(3, 0).len() != name_cell(3, 1).len());
    assert(name_cell(3, 0).len() != name_cell(3, 2).len());
    assert(name_cell(3, 0).len() != name_cell(3, 3).len());
    assert(name_cell(3, 0).len() != name_cell(3, 4).len());
    assert(name_cell(3, 0).len() != name_cell(3, 5).len());
    assert(name_cell(3, 0).len() != name_cell(3, 6).len());
    assert(name_cell(3, 0).len() != name_cell(3, 7).len());
    assert(name_cell(3, 0).len() != name_cell(3, 8).len());
    assert(name_cell(3, 0).len() != name_cell(3, 9).len());
    assert(name_cell(3, 0).len() != name_cell(3, 10).len());
    assert(name_cell(3, 0).len() != name_cell(3, 11).len());
    assert(name_cell(3, 1).len() != name_cell(3, 2).len());
    assert(name_cell(3, 1).len() != name_cell(3, 3).len());
    assert(name_cell(3, 1).len() != name_cell(3, 4).len());
    assert(name_cell(3, 1)[0] != name_cell(3, 5)[0]);
    assert(name_cell(3, 1).len() != name_cell(3, 6).len());
    assert(name_cell(3, 1).len() != name_cell(3, 7).len());
    assert(name_cell(3, 1).len() != name_cell(3, 8).len());
    assert(name_cell(3, 1).len() != name_cell(3, 9).len());
    assert(name_cell(3, 1)[0] != name_cell(3, 10)[0]);
    assert(name_cell(3, 1).len() != name_cell(3, 11).len());
    assert(name_cell(3, 2)[0] != name_cell(3, 3)[0]);
    assert(name_cell(3, 2)[0] != name_cell(3, 4)[0]);
    assert(name_cell(3, 2).len() != name_cell(3, 5).len());
    assert(name_cell(3, 2).len() != name_cell(3, 6).len());
    assert(name_cell(3, 2).len() != name_cell(3, 7).len());
    assert(name_cell(3, 2).len() != name_cell(3, 8).len());
    assert(name_cell(3, 2)[0] != name_cell(3, 9)[0]);
    assert(name_cell(3, 2).len() != name_cell(3, 10).len());
    assert(name_cell(3, 2).len() != name_cell(3, 11).len());
    assert(name_cell(3, 3)[0] != name_cell(3, 4)[0]);
    assert(name_cell(3, 3).len() != name_cell(3, 5).len());
    assert(name_cell(3, 3).len() != name_cell(3, 6).len());
    assert(name_cell(3, 3).len() != name_cell(3, 7).len());
    assert(name_cell(3, 3).len() != name_cell(3, 8).len());
    assert(name_cell(3, 3)[0] != name_cell(3, 9)[0]);
    assert(name_cell(3, 3).len() != name_cell(3, 10).len());
    assert(name_cell(3, 3).len() != name_cell(3, 11).len());
    assert(name_cell(3, 4).len() != name_cell(3, 5).len());
    assert(name_cell(3, 4).len() != name_cell(3, 6).len());
    assert(name_cell(3, 4).len() != name_cell(3, 7).len());
    assert(name_cell(3, 4).len() != name_cell(3, 8).len());
    assert(name_cell(3, 4)[0] != name_cell(3, 9)[0]);
    assert(name_cell(3, 4).len() != name_cell(3, 10).len());
    assert(name_cell(3, 4).len() != name_cell(3, 11).len());
    assert(name_cell(3, 5).len() != name_cell(3, 6).len());
    assert(name_cell(3, 5).len() != name_cell(3, 7).len());
    assert(name_cell(3, 5).len() != name_cell(3, 8).len());
    assert(name_cell(3, 5).len() != name_cell(3, 9).len());
    assert(name_cell(3, 5)[0] != name_cell(3, 10)[0]);
    assert(name_cell(3, 5).len() != name_cell(3, 11).len());
    assert(name_cell(3, 6).len() != name_cell(3, 7).len());
    assert(name_cell(3, 6).len() != name_cell(3, 8).len());
    assert(name_cell(3, 6).len() != name_cell(3, 9).len());
    assert(name_cell(3, 6).len() != name_cell(3, 10).len());
    assert(name_cell(3, 6).len() != name_cell(3, 11).len());
    assert(name_cell(3, 7)[0] != name_cell(3, 8)[0]);
    assert(name_cell(3, 7).len() != name_cell(3, 9).len());
    assert(name_cell(3, 7).len() != name_cell(3, 10).len());
    assert(name_cell(3, 7).len() != name_cell(3, 11).len());
    assert(name_cell(3, 8).len() != name_cell(3, 9).len());
    assert(name_cell(3, 8).len() != name_cell(3, 10).len());
    assert(name_cell(3, 8).len() != name_cell(3, 11).len());
    assert(name_cell(3, 9).len() != name_cell(3, 10).len());
    assert(name_cell(3, 9).len() != name_cell(3, 11).len());
    assert(name_cell(3, 10).len() != name_cell(3, 11).len());
}

proof fn lemma_row_4_distinct()
    ensures
        forall|i: int, j: int| 0 <= i < 12 && 0 <= j < 12 && i != j ==> name_cell(4, i) != name_cell(4, j),
{
    reveal_strlit("turco");
    reveal_strlit("inglés");
    reveal_strlit("alemán");
    reveal_strlit("francés");
    reveal_strlit("español");
    reveal_strlit("italiano");
    reveal_strlit("portugués");
    reveal_strlit("ruso");
    reveal_strlit("árabe");
    reveal_strlit("japonés");
    reveal_strlit("chino");
    reveal_strlit("coreano");
    assert(name_cell(4, 0).len() != name_cell(4, 1).len());
    assert(name_cell(4, 0).len() != name_cell(4, 2).len());
    assert(name_cell(4, 0).len() != name_cell(4, 3).len());
    assert(name_cell(4, 0).len() != name_cell(4, 4).len());
    assert(name_cell(4, 0).len() != name_cell(4, 5).len());
    assert(name_cell(4, 0).len() != name_cell(4, 6).len());
    assert(name_cell(4, 0).len() != name_cell(4, 7).len());
    assert(name_cell(4, 0)[0] != name_cell(4, 8)[0]);
    assert(name_cell(4, 0).len() != name_cell(4, 9).len());
    assert(name_cell(4, 0)[0] != name_cell(4, 10)[0]);
    assert(name_cell(4, 0).len() != name_cell(4, 11).len());
    assert(name_cell(4, 1)[0] != name_cell(4, 2)[0]);
    assert(name_cell(4, 1).len() != name_cell(4, 3).len());
    assert(name_cell(4, 1).len() != name_cell(4, 4).len());
    assert(name_cell(4, 1).len() != name_cell(4, 5).len());
    assert(name_cell(4, 1).len() != name_cell(4, 6).len());
    assert(name_cell(4, 1).len() != name_cell(4, 7).len());
    assert(name_cell(4, 1).len() != name_cell(4, 8).len());
    assert(name_cell(4, 1).len() != name_cell(4, 9).len());
    assert(name_cell(4, 1).len() != name_cell(4, 10).len());
    assert(name_cell(4, 1).len() != name_cell(4, 11).len());
    assert(name_cell(4, 2).len() != name_cell(4, 3).len());
    assert(name_cell(4, 2).len() != name_cell(4, 4).len());
    assert(name_cell(4, 2).len() != name_cell(4, 5).len());
    assert(name_cell(4, 2).len() != name_cell(4, 6).len());
    assert(name_cell(4, 2).len() != name_cell(4, 7).len());
    assert(name_cell(4, 2).len() != name_cell(4, 8).len());
    assert(name_cell(4, 2).len() != name_cell(4, 9).len());
    assert(name_cell(4, 2).len() != name_cell(4, 10).len());
    assert(name_cell(4, 2).len() != name_cell(4, 11).len());
    assert(name_cell(4, 3)[0] != name_cell(4, 4)[0]);
    assert(name_cell(4, 3).len() != name_cell(4, 5).len());
    assert(name_cell(4, 3).len() != name_cell(4, 6).len());
    assert(name_cell(4, 3).len() != name_cell(4, 7).len());
    assert(name_cell(4, 3).len() != name_cell(4, 8).len());
    assert(name_cell(4, 3)[0] != name_cell(4, 9)[0]);
    assert(name_cell(4, 3).len() != name_cell(4, 10).len());
    assert(name_cell(4, 3)[0] != name_cell(4, 11)[0]);
    assert(name_cell(4, 4).len() != name_cell(4, 5).len());
    assert(name_cell(4, 4).len() != name_cell(4, 6).len());
    assert(name_cell(4, 4).len() != name_cell(4, 7).len());
    assert(name_cell(4, 4).len() != name_cell(4, 8).len());
    assert(name_cell(4, 4)[0] != name_cell(4, 9)[0]);
    assert(name_cell(4, 4).len() != name_cell(4, 10).len());
    assert(name_cell(4, 4)[0] != name_cell(4, 11)[0]);
    assert(name_cell(4, 5).len() != name_cell(4, 6).len());
    assert(name_cell(4, 5).len() != name_cell(4, 7).len());
    assert(name_cell(4, 5).len() != name_cell(4, 8).len());
    assert(name_cell(4, 5).len() != name_cell(4, 9).len());
    assert(name_cell(4, 5).len() != name_cell(4, 10).len());
    assert(name_cell(4, 5).len() != name_cell(4, 11).len());
    assert(name_cell(4, 6).len() != name_cell(4, 7).len());
    assert(name_cell(4, 6).len() != name_cell(4, 8).len());
    assert(name_cell(4, 6).len() != name_cell(4, 9).len());
    assert(name_cell(4, 6).len() != name_cell(4, 10).len());
    assert(name_cell(4, 6).len() != name_cell(4, 11).len());
    assert(name_cell(4, 7).len() != name_cell(4, 8).len());
    assert(name_cell(4, 7).len() != name_cell(4, 9).len());
    assert(name_cell(4, 7).len() != name_cell(4, 10).len());
    assert(name_cell(4, 7).len() != name_cell(4, 11).len());
    assert(name_cell(4, 8).len() != name_cell(4, 9).len());
    assert(name_cell(4, 8)[0] != name_cell(4, 10)[0]);
    assert(name_cell(4, 8).len() != name_cell(4, 11).len());
    assert(name_cell(4, 9).len() != name_cell(4, 10).len());
    assert(name_cell(4, 9)[0] != name_cell(4, 11)[0]);
    assert(name_cell(4, 10).len() != name_cell(4, 11).len());
}

proof fn lemma_row_5_distinct()
    ensures
        forall|i: int, j: int| 0 <= i < 12 && 0 <= j < 12 && i != j ==> name_cell(5, i) != name_cell(5, j),
{
    reveal_strlit("turco");
    reveal_strlit("inglese");
    reveal_strlit("tedesco");
    reveal_strlit("francese");
    reveal_strlit("spagnolo");
    reveal_strlit("italiano");
    reveal_strlit("portoghese");
    reveal_strlit("russo");
    reveal_strlit("arabo");
    reveal_strlit("giapponese");
    reveal_strlit("cinese");
    reveal_strlit("coreano");
    assert(name_cell(5, 0).len() != name_cell(5, 1).len());
    assert(name_cell(5, 0).len() != name_cell(5, 2).len());
    assert(name_cell(5, 0).len() != name_cell(5, 3).len());
    assert(name_cell(5, 0).len() != name_cell(5, 4).len());
    assert(name_cell(5, 0).len() != name_cell(5, 5).len());
    assert(name_cell(5, 0).len() != name_cell(5, 6).len());
    assert(name_cell(5, 0)[0] != name_cell(5, 7)[0]);
    assert(name_cell(5, 0)[0] != name_cell(5, 8)[0]);
    assert(name_cell(5, 0).len() != name_cell(5, 9).len());
    assert(name_cell(5, 0).len() != name_cell(5, 10).len());
    assert(name_cell(5, 0).len() != name_cell(5, 11).len());
    assert(name_cell(5, 1)[0] != name_cell(5, 2)[0]);
    assert(name_cell(5, 1).len() != name_cell(5, 3).len());
    assert(name_cell(5, 1).len() != name_cell(5, 4).len());
    assert(name_cell(5, 1).len() != name_cell(5, 5).len());
    assert(name_cell(5, 1).len() != name_cell(5, 6).len());
    assert(name_cell(5, 1).len() != name_cell(5, 7).len());
    assert(name_cell(5, 1).len() != name_cell(5, 8).len());
    assert(name_cell(5, 1).len() != name_cell(5, 9).len());
    assert(name_cell(5, 1).len() != name_cell(5, 10).len());
    assert(name_cell(5, 1)[0] != name_cell(5, 11)[0]);
    assert(name_cell(5, 2).len() != name_cell(5, 3).len());
    assert(name_cell(5, 2).len() != name_cell(5, 4).len());
    assert(name_cell(5, 2).len() != name_cell(5, 5).len());
    assert(name_cell(5, 2).len() != name_cell(5, 6).len());
    assert(name_cell(5, 2).len() != name_cell(5, 7).len());
    assert(name_cell(5, 2).len() != name_cell(5, 8).len());
    assert(name_cell(5, 2).len() != name_cell(5, 9).len());
    assert(name_cell(5, 2).len() != name_cell(5, 10).len());
    assert(name_cell(5, 2)[0] != name_cell(5, 11)[0]);
    assert(name_cell(5, 3)[0] != name_cell(5, 4)[0]);
    assert(name_cell(5, 3)[0] != name_cell(5, 5)[0]);
    assert(name_cell(5, 3).len() != name_cell(5, 6).len());
    assert(name_cell(5, 3).len() != name_cell(5, 7).len());
    assert(name_cell(5, 3).len() != name_cell(5, 8).len());
    assert(name_cell(5, 3).len() != name_cell(5, 9).len());
    assert(name_cell(5, 3).len() != name_cell(5, 10).len());
    assert(name_cell(5, 3).len() != name_cell(5, 11).len());
    assert(name_cell(5, 4)[0] != name_cell(5, 5)[0]);
    assert(name_cell(5, 4).len() != name_cell(5, 6).len());
    assert(name_cell(5, 4).len() != name_cell(5, 7).len());
    assert(name_cell(5, 4).len() != name_cell(5, 8).len());
    assert(name_cell(5, 4).len() != name_cell(5, 9).len());
    assert(name_cell(5, 4).len() != name_cell(5, 10).len());
    assert(name_cell(5, 4).len() != name_cell(5, 11).len());
    assert(name_cell(5, 5).len() != name_cell(5, 6).len());
    assert(name_cell(5, 5).len() != name_cell(5, 7).len());
    assert(name_cell(5, 5).len() != name_cell(5, 8).len());
    assert(name_cell(5, 5).len() != name_cell(5, 9).len());
    assert(name_cell(5, 5).len() != name_cell(5, 10).len());
    assert(name_cell(5, 5).len() != name_cell(5, 11).len());
    assert(name_cell(5, 6).len() != name_cell(5, 7).len());
    assert(name_cell(5, 6).len() != name_cell(5, 8).len());
    assert(name_cell(5, 6)[0] != name_cell(5, 9)[0]);
    assert(name_cell(5, 6).len() != name_cell(5, 10).len());
    assert(name_cell(5, 6).len() != name_cell(5, 11).len());
    assert(name_cell(5, 7)[0] != name_cell(5, 8)[0]);
    assert(name_cell(5, 7).len() != name_cell(5, 9).len());
    assert(name_cell(5, 7).len() != name_cell(5, 10).len());
    assert(name_cell(5, 7).len() != name_cell(5, 11).len());
    assert(name_cell(5, 8).len() != name_cell(5, 9).len());
    assert(name_cell(5, 8).len() != name_cell(5, 10).len());
    assert(name_cell(5, 8).len() != name_cell(5, 11).len());
    assert(name_cell(5, 9).len() != name_cell(5, 10).len());
    assert(name_cell(5, 9).len() != name_cell(5, 11).len());
    assert(name_cell(5, 10).len() != name_cell(5, 11).len());
}

proof fn lemma_row_6_distinct()
    ensures
        forall|i: int, j: int| 0 <= i < 12 && 0 <= j < 12 && i != j ==> name_cell(6, i) != name_cell(6, j),
{
    reveal_strlit("turco");
    reveal_strlit("inglês");
    reveal_strlit("alemão");
    reveal_strlit("francês");
    reveal_strlit("espanhol");
    reveal_strlit("italiano");
    reveal_strlit("português");
    reveal_strlit("russo");
    reveal_strlit("árabe");
    reveal_strlit("japonês");
    reveal_strlit("chinês");
    reveal_strlit("coreano");
    assert(name_cell(6, 0).len() != name_cell(6, 1).len());
    assert(name_cell(6, 0).len() != name_cell(6, 2).len());
    assert(name_cell(6, 0).len() != name_cell(6, 3).len());
    assert(name_cell(6, 0).len() != name_cell(6, 4).len());
    assert(name_cell(6, 0).len() != name_cell(6, 5).len());
    assert(name_cell(6, 0).len() != name_cell(6, 6).len());
    assert(name_cell(6, 0)[0] != name_cell(6, 7)[0]);
    assert(name_cell(6, 0)[0] != name_cell(6, 8)[0]);
    assert(name_cell(6, 0).len() != name_cell(6, 9).len());
    assert(name_cell(6, 0).len() != name_cell(6, 10).len());
    assert(name_cell(6, 0).len() != name_cell(6, 11).len());
    assert(name_cell(6, 1)[0] != name_cell(6, 2)[0]);
    assert(name_cell(6, 1).len() != name_cell(6, 3).len());
    assert(name_cell(6, 1).len() != name_cell(6, 4).len());
    assert(name_cell(6, 1).len() != name_cell(6, 5).len());
    assert(name_cell(6, 1).len() != name_cell(6, 6).len());
    assert(name_cell(6, 1).len() != name_cell(6, 7).len());
    assert(name_cell(6, 1).len() != name_cell(6, 8).len());
    assert(name_cell(6, 1).len() != name_cell(6, 9).len());
    assert(name_cell(6, 1)[0] != name_cell(6, 10)[0]);
    assert(name_cell(6, 1).len() != name_cell(6, 11).len());
    assert(name_cell(6, 2).len() != name_cell(6, 3).len());
    assert(name_cell(6, 2).len() != name_cell(6, 4).len());
    assert(name_cell(6, 2).len() != name_cell(6, 5).len());
    assert(name_cell(6, 2).len() != name_cell(6, 6).len());
    assert(name_cell(6, 2).len() != name_cell(6, 7).len());
    assert(name_cell(6, 2).len() != name_cell(6, 8).len());
    assert(name_cell(6, 2).len() != name_cell(6, 9).len());
    assert(name_cell(6, 2)[0] != name_cell(6, 10)[0]);
    assert(name_cell(6, 2).len() != name_cell(6, 11).len());
    assert(name_cell(6, 3).len() != name_cell(6, 4).len());
    assert(name_cell(6, 3).len() != name_cell(6, 5).len());
    assert(name_cell(6, 3).len() != name_cell(6, 6).len());
    assert(name_cell(6, 3).len() != name_cell(6, 7).len());
    assert(name_cell(6, 3).len() != name_cell(6, 8).len());
    assert(name_cell(6, 3)[0] != name_cell(6, 9)[0]);
    assert(name_cell(6, 3).len() != name_cell(6, 10).len());
    assert(name_cell(6, 3)[0] != name_cell(6, 11)[0]);
    assert(name_cell(6, 4)[0] != name_cell(6, 5)[0]);
    assert(name_cell(6, 4).len() != name_cell(6, 6).len());
    assert(name_cell(6, 4).len() != name_cell(6, 7).len());
    assert(name_cell(6, 4).len() != name_cell(6, 8).len());
    assert(name_cell(6, 4).len() != name_cell(6, 9).len());
    assert(name_cell(6, 4).len() != name_cell(6, 10).len());
    assert(name_cell(6, 4).len() != name_cell(6, 11).len());
    assert(name_cell(6, 5).len() != name_cell(6, 6).len());
    assert(name_cell(6, 5).len() != name_cell(6, 7).len());
    assert(name_cell(6, 5).len() != name_cell(6, 8).len());
    assert(name_cell(6, 5).len() != name_cell(6, 9).len());
    assert(name_cell(6, 5).len() != name_cell(6, 10).len());
    assert(name_cell(6, 5).len() != name_cell(6, 11).len());
    assert(name_cell(6, 6).len() != name_cell(6, 7).len());
    assert(name_cell(6, 6).len() != name_cell(6, 8).len());
    assert(name_cell(6, 6).len() != name_cell(6, 9).len());
    assert(name_cell(6, 6).len() != name_cell(6, 10).len());
    assert(name_cell(6, 6).len() != name_cell(6, 11).len());
    assert(name_cell(6, 7)[0] != name_cell(6, 8)[0]);
    assert(name_cell(6, 7).len() != name_cell(6, 9).len());
    assert(name_cell(6, 7).len() != name_cell(6, 10).len());
    assert(name_cell(6, 7).len() != name_cell(6, 11).len());
    assert(name_cell(6, 8).len() != name_cell(6, 9).len());
    assert(name_cell(6, 8).len() != name_cell(6, 10).len());
    assert(name_cell(6, 8).len() != name_cell(6, 11).len());
    assert(name_cell(6, 9).len() != name_cell(6, 10).len());
    assert(name_cell(6, 9)[0] != name_cell(6, 11)[0]);
    assert(name_cell(6, 10).len() != name_cell(6, 11).len());
}

proof fn lemma_row_7_distinct()
    ensures
        forall|i: int, j: int| 0 <= i < 12 && 0 <= j < 12 && i != j ==> name_cell(7, i) != name_cell(7, j),
{
    reveal_strlit("турецкий");
    reveal_strlit("английский");
    reveal_strlit("немецкий");
    reveal_strlit("французский");
    reveal_strlit("испанский");
    reveal_strlit("итальянский");
    reveal_strlit("португальский");
    reveal_strlit("русский");
    reveal_strlit("арабский");
    reveal_strlit("японский");
    reveal_strlit("китайский");
    reveal_strlit("корейский");
    assert(name_cell(7, 0).len() != name_cell(7, 1).len());
    assert(name_cell(7, 0)[0] != name_cell(7, 2)[0]);
    assert(name_cell(7, 0).len() != name_cell(7, 3).len());
    assert(name_cell(7, 0).len() != name_cell(7, 4).len());
    assert(name_cell(7, 0).len() != name_cell(7, 5).len());
    assert(name_cell(7, 0).len() != name_cell(7, 6).len());
    assert(name_cell(7, 0).len() != name_cell(7, 7).len());
    assert(name_cell(7, 0)[0] != name_cell(7, 8)[0]);
    assert(name_cell(7, 0)[0] != name_cell(7, 9)[0]);
    assert(name_cell(7, 0).len() != name_cell(7, 10).len());
    assert(name_cell(7, 0).len() != name_cell(7, 11).len());
    assert(name_cell(7, 1).len() != name_cell(7, 2).len());
    assert(name_cell(7, 1).len() != name_cell(7, 3).len());
    assert(name_cell(7, 1).len() != name_cell(7, 4).len());
    assert(name_cell(7, 1).len() != name_cell(7, 5).len());
    assert(name_cell(7, 1).len() != name_cell(7, 6).len());
    assert(name_cell(7, 1).len() != name_cell(7, 7).len());
    assert(name_cell(7, 1).len() != name_cell(7, 8).len());
    assert(name_cell(7, 1).len() != name_cell(7, 9).len());
    assert(name_cell(7, 1).len() != name_cell(7, 10).len());
    assert(name_cell(7, 1).len() != name_cell(7, 11).len());
    assert(name_cell(7, 2).len() != name_cell(7, 3).len());
    assert(name_cell(7, 2).len() != name_cell(7, 4).len());
    assert(name_cell(7, 2).len() != name_cell(7, 5).len());
    assert(name_cell(7, 2).len() != name_cell(7, 6).len());
    assert(name_cell(7, 2).len() != name_cell(7, 7).len());
    assert(name_cell(7, 2)[0] != name_cell(7, 8)[0]);
    assert(name_cell(7, 2)[0] != name_cell(7, 9)[0]);
    assert(name_cell(7, 2).len() != name_cell(7, 10).len());
    assert(name_cell(7, 2).len() != name_cell(7, 11).len());
    assert(name_cell(7, 3).len() != name_cell(7, 4).len());
    assert(name_cell(7, 3)[0] != name_cell(7, 5)[0]);
    assert(name_cell(7, 3).len() != name_cell(7, 6).len());
    assert(name_cell(7, 3).len() != name_cell(7, 7).len());
    assert(name_cell(7, 3).len() != name_cell(7, 8).len());
    assert(name_cell(7, 3).len() != name_cell(7, 9).len());
    assert(name_cell(7, 3).len() != name_cell(7, 10).len());
    assert(name_cell(7, 3).len() != name_cell(7, 11).len());
    assert(name_cell(7, 4).len() != name_cell(7, 5).len());
    assert(name_cell(7, 4).len() != name_cell(7, 6).len());
    assert(name_cell(7, 4).len() != name_cell(7, 7).len());
    assert(name_cell(7, 4).len() != name_cell(7, 8).len());
    assert(name_cell(7, 4).len() != name_cell(7, 9).len());
    assert(name_cell(7, 4)[0] != name_cell(7, 10)[0]);
    assert(name_cell(7, 4)[0] != name_cell(7, 11)[0]);
    assert(name_cell(7, 5).len() != name_cell(7, 6).len());
    assert(name_cell(7, 5).len() != name_cell(7, 7).len());
    assert(name_cell(7, 5).len() != name_cell(7, 8).len());
    assert(name_cell(7, 5).len() != name_cell(7, 9).len());
    assert(name_cell(7, 5).len() != name_cell(7, 10).len());
    assert(name_cell(7, 5).len() != name_cell(7, 11).len());
    assert(name_cell(7, 6).len() != name_cell(7, 7).len());
    assert(name_cell(7, 6).len() != name_cell(7, 8).len());
    assert(name_cell(7, 6).len() != name_cell(7, 9).len());
    assert(name_cell(7, 6).len() != name_cell(7, 10).len());
    assert(name_cell(7, 6).len() != name_cell(7, 11).len());
    assert(name_cell(7, 7).len() != name_cell(7, 8).len());
    assert(name_cell(7, 7).len() != name_cell(7, 9).len());
    assert(name_cell(7, 7).len() != name_cell(7, 10).len());
    assert(name_cell(7, 7).len() != name_cell(7, 11).len());
    assert(name_cell(7, 8)[0] != name_cell(7, 9)[0]);
    assert(name_cell(7, 8).len() != name_cell(7, 10).len());
    assert(name_cell(7, 8).len() != name_cell(7, 11).len());
    assert(name_cell(7, 9).len() != name_cell(7, 10).len());
    assert(name_cell(7, 9).len() != name_cell(7, 11).len());
    assert(name_cell(7, 10)[1] != name_cell(7, 11)[1]);
}

proof fn lemma_row_8_distinct()
    ensures
        forall|i: int, j: int| 0 <= i < 12 && 0 <= j < 12 && i != j ==> name_cell(8, i) != name_cell(8, j),
{
    reveal_strlit("التركية");
    reveal_strlit("الإنجليزية");
    reveal_strlit("الألمانية");
    reveal_strlit("الفرنسية");
    reveal_strlit("الإسبانية");
    reveal_strlit("الإيطالية");
    reveal_strlit("البرتغالية");
    reveal_strlit("الروسية");
    reveal_strlit("العربية");
    reveal_strlit("اليابانية");
    reveal_strlit("الصينية");
    reveal_strlit("الكورية");
    assert(name_cell(8, 0).len() != name_cell(8, 1).len());
    assert(name_cell(8, 0).len() != name_cell(8, 2).len());
    assert(name_cell(8, 0).len() != name_cell(8, 3).len());
    assert(name_cell(8, 0).len() != name_cell(8, 4).len());
    assert(name_cell(8, 0).len() != name_cell(8, 5).len());
    assert(name_cell(8, 0).len() != name_cell(8, 6).len());
    assert(name_cell(8, 0)[2] != name_cell(8, 7)[2]);
    assert(name_cell(8, 0)[2] != name_cell(8, 8)[2]);
    assert(name_cell(8, 0).len() != name_cell(8, 9).len());
    assert(name_cell(8, 0)[2] != name_cell(8, 10)[2]);
    assert(name_cell(8, 0)[2] != name_cell(8, 11)[2]);
    assert(name_cell(8, 1).len() != name_cell(8, 2).len());
    assert(name_cell(8, 1).len() != name_cell(8, 3).len());
    assert(name_cell(8, 1).len() != name_cell(8, 4).len());
    assert(name_cell(8, 1).len() != name_cell(8, 5).len());
    assert(name_cell(8, 1)[2] != name_cell(8, 6)[2]);
    assert(name_cell(8, 1).len() != name_cell(8, 7).len());
    assert(name_cell(8, 1).len() != name_cell(8, 8).len());
    assert(name_cell(8, 1).len() != name_cell(8, 9).len());
    assert(name_cell(8, 1).len() != name_cell(8, 10).len());
    assert(name_cell(8, 1).len() != name_cell(8, 11).len());
    assert(name_cell(8, 2).len() != name_cell(8, 3).len());
    assert(name_cell(8, 2)[2] != name_cell(8, 4)[2]);
    assert(name_cell(8, 2)[2] != name_cell(8, 5)[2]);
    assert(name_cell(8, 2).len() != name_cell(8, 6).len());
    assert(name_cell(8, 2).len() != name_cell(8, 7).len());
    assert(name_cell(8, 2).len() != name_cell(8, 8).len());
    assert(name_cell(8, 2)[2] != name_cell(8, 9)[2]);
    assert(name_cell(8, 2).len() != name_cell(8, 10).len());
    assert(name_cell(8, 2).len() != name_cell(8, 11).len());
    assert(name_cell(8, 3).len() != name_cell(8, 4).len());
    assert(name_cell(8, 3).len() != name_cell(8, 5).len());
    assert(name_cell(8, 3).len() != name_cell(8, 6).len());
    assert(name_cell(8, 3).len() != name_cell(8, 7).len());
    assert(name_cell(8, 3).len() != name_cell(8, 8).len());
    assert(name_cell(8, 3).len() != name_cell(8, 9).len());
    assert(name_cell(8, 3).len() != name_cell(8, 10).len());
    assert(name_cell(8, 3).len() != name_cell(8, 11).len());
    assert(name_cell(8, 4)[3] != name_cell(8, 5)[3]);
    assert(name_cell(8, 4).len() != name_cell(8, 6).len());
    assert(name_cell(8, 4).len() != name_cell(8, 7).len());
    assert(name_cell(8, 4).len() != name_cell(8, 8).len());
    assert(name_cell(8, 4)[2] != name_cell(8, 9)[2]);
    assert(name_cell(8, 4).len() != name_cell(8, 10).len());
    assert(name_cell(8, 4).len() != name_cell(8, 11).len());
    assert(name_cell(8, 5).len() != name_cell(8, 6).len());
    assert(name_cell(8, 5).len() != name_cell(8, 7).len());
    assert(name_cell(8, 5).len() != name_cell(8, 8).len());
    assert(name_cell(8, 5)[2] != name_cell(8, 9)[2]);
    assert(name_cell(8, 5).len() != name_cell(8, 10).len());
    assert(name_cell(8, 5).len() != name_cell(8, 11).len());
    assert(name_cell(8, 6).len() != name_cell(8, 7).len());
    assert(name_cell(8, 6).len() != name_cell(8, 8).len());
    assert(name_cell(8, 6).len() != name_cell(8, 9).len());
    assert(name_cell(8, 6).len() != name_cell(8, 10).len());
    assert(name_cell(8, 6).len() != name_cell(8, 11).len());
    assert(name_cell(8, 7)[2] != name_cell(8, 8)[2]);
    assert(name_cell(8, 7).len() != name_cell(8, 9).len());
    assert(name_cell(8, 7)[2] != name_cell(8, 10)[2]);
    assert(name_cell(8, 7)[2] != name_cell(8, 11)[2]);
    assert(name_cell(8, 8).len() != name_cell(8, 9).len());
    assert(name_cell(8, 8)[2] != name_cell(8, 10)[2]);
    assert(name_cell(8, 8)[2] != name_cell(8, 11)[2]);
    assert(name_cell(8, 9).len() != name_cell(8, 10).len());
    assert(name_cell(8, 9).len() != name_cell(8, 11).len());
    assert(name_cell(8, 10)[2] != name_cell(8, 11)[2]);
}

proof fn lemma_row_9_distinct()
    ensures
        forall|i: int, j: int| 0 <= i < 12 && 0 <= j < 12 && i != j ==> name_cell(9, i) != name_cell(9, j),
{
    reveal_strlit("トルコ語");
    reveal_strlit("英語");
    reveal_strlit("ドイツ語");
    reveal_strlit("フランス語");
    reveal_strlit("スペイン語");
    reveal_strlit("イタリア語");
    reveal_strlit("ポルトガル語");
    reveal_strlit("ロシア語");
    reveal_strlit("アラビア語");
    reveal_strlit("日本語");
    reveal_strlit("中国語");
    reveal_strlit("韓国語");
    assert(name_cell(9, 0).len() != name_cell(9, 1).len());
    assert(name_cell(9, 0)[0] != name_cell(9, 2)[0]);
    assert(name_cell(9, 0).len() != name_cell(9, 3).len());
    assert(name_cell(9, 0).len() != name_cell(9, 4).len());
    assert(name_cell(9, 0).len() != name_cell(9, 5).len());
    assert(name_cell(9, 0).len() != name_cell(9, 6).len());
    assert(name_cell(9, 0)[0] != name_cell(9, 7)[0]);
    assert(name_cell(9, 0).len() != name_cell(9, 8).len());
    assert(name_cell(9, 0).len() != name_cell(9, 9).len());
    assert(name_cell(9, 0).len() != name_cell(9, 10).len());
    assert(name_cell(9, 0).len() != name_cell(9, 11).len());
    assert(name_cell(9, 1).len() != name_cell(9, 2).len());
    assert(name_cell(9, 1).len() != name_cell(9, 3).len());
    assert(name_cell(9, 1).len() != name_cell(9, 4).len());
    assert(name_cell(9, 1).len() != name_cell(9, 5).len());
    assert(name_cell(9, 1).len() != name_cell(9, 6).len());
    assert(name_cell(9, 1).len() != name_cell(9, 7).len());
    assert(name_cell(9, 1).len() != name_cell(9, 8).len());
    assert(name_cell(9, 1).len() != name_cell(9, 9).len());
    assert(name_cell(9, 1).len() != name_cell(9, 10).len());
    assert(name_cell(9, 1).len() != name_cell(9, 11).len());
    assert(name_cell(9, 2).len() != name_cell(9, 3).len());
    assert(name_cell(9, 2).len() != name_cell(9, 4).len());
    assert(name_cell(9, 2).len() != name_cell(9, 5).len());
    assert(name_cell(9, 2).len() != name_cell(9, 6).len());
    assert(name_cell(9, 2)[0] != name_cell(9, 7)[0]);
    assert(name_cell(9, 2).len() != name_cell(9, 8).len());
    assert(name_cell(9, 2).len() != name_cell(9, 9).len());
    assert(name_cell(9, 2).len() != name_cell(9, 10).len());
    assert(name_cell(9, 2).len() != name_cell(9, 11).len());
    assert(name_cell(9, 3)[0] != name_cell(9, 4)[0]);
    assert(name_cell(9, 3)[0] != name_cell(9, 5)[0]);
    assert(name_cell(9, 3).len() != name_cell(9, 6).len());
    assert(name_cell(9, 3).len() != name_cell(9, 7).len());
    assert(name_cell(9, 3)[0] != name_cell(9, 8)[0]);
    assert(name_cell(9, 3).len() != name_cell(9, 9).len());
    assert(name_cell(9, 3).len() != name_cell(9, 10).len());
    assert(name_cell(9, 3).len() != name_cell(9, 11).len());
    assert(name_cell(9, 4)[0] != name_cell(9, 5)[0]);
    assert(name_cell(9, 4).len() != name_cell(9, 6).len());
    assert(name_cell(9, 4).len() != name_cell(9, 7).len());
    assert(name_cell(9, 4)[0] != name_cell(9, 8)[0]);
    assert(name_cell(9, 4).len() != name_cell(9, 9).len());
    assert(name_cell(9, 4).len() != name_cell(9, 10).len());
    assert(name_cell(9, 4).len() != name_cell(9, 11).len());
    assert(name_cell(9, 5).len() != name_cell(9, 6).len());
    assert(name_cell(9, 5).len() != name_cell(9, 7).len());
    assert(name_cell(9, 5)[0] != name_cell(9, 8)[0]);
    assert(name_cell(9, 5).len() != name_cell(9, 9).len());
    assert(name_cell(9, 5).len() != name_cell(9, 10).len());
    assert(name_cell(9, 5).len() != name_cell(9, 11).len());
    assert(name_cell(9, 6).len() != name_cell(9, 7).len());
    assert(name_cell(9, 6).len() != name_cell(9, 8).len());
    assert(name_cell(9, 6).len() != name_cell(9, 9).len());
    assert(name_cell(9, 6).len() != name_cell(9, 10).len());
    assert(name_cell(9, 6).len() != name_cell(9, 11).len());
    assert(name_cell(9, 7).len() != name_cell(9, 8).len());
    assert(name_cell(9, 7).len() != name_cell(9, 9).len());
    assert(name_cell(9, 7).len() != name_cell(9, 10).len());
    assert(name_cell(9, 7).len() != name_cell(9, 11).len());
    assert(name_cell(9, 8).len() != name_cell(9, 9).len());
    assert(name_cell(9, 8).len() != name_cell(9, 10).len());
    assert(name_cell(9, 8).len() != name_cell(9, 11).len());
    assert(name_cell(9, 9)[0] != name_cell(9, 10)[0]);
    assert(name_cell(9, 9)[0] != name_cell(9, 11)[0]);
    assert(name_cell(9, 10)[0] != name_cell(9, 11)[0]);
}

proof fn lemma_row_10_distinct()
    ensures
        forall|i: int, j: int| 0 <= i < 12 && 0 <= j < 12 && i != j ==> name_cell(10, i) != name_cell(10, j),
{
    reveal_strlit("土耳其语");
    reveal_strlit("英语");
    reveal_strlit("德语");
    reveal_strlit("法语");
    reveal_strlit("西班牙语");
    reveal_strlit("意大利语");
    reveal_strlit("葡萄牙语");
    reveal_strlit("俄语");
    reveal_strlit("阿拉伯语");
    reveal_strlit("日语");
    reveal_strlit("中文");
    reveal_strlit("韩语");
    assert(name_cell(10, 0).len() != name_cell(10, 1).len());
    assert(name_cell(10, 0).len() != name_cell(10, 2).len());
    assert(name_cell(10, 0).len() != name_cell(10, 3).len());
    assert(name_cell(10, 0)[0] != name_cell(10, 4)[0]);
    assert(name_cell(10, 0)[0] != name_cell(10, 5)[0]);
    assert(name_cell(10, 0)[0] != name_cell(10, 6)[0]);
    assert(name_cell(10, 0).len() != name_cell(10, 7).len());
    assert(name_cell(10, 0)[0] != name_cell(10, 8)[0]);
    assert(name_cell(10, 0).len() != name_cell(10, 9).len());
    assert(name_cell(10, 0).len() != name_cell(10, 10).len());
    assert(name_cell(10, 0).len() != name_cell(10, 11).len());
    assert(name_cell(10, 1)[0] != name_cell(10, 2)[0]);
    assert(name_cell(10, 1)[0] != name_cell(10, 3)[0]);
    assert(name_cell(10, 1).len() != name_cell(10, 4).len());
    assert(name_cell(10, 1).len() != name_cell(10, 5).len());
    assert(name_cell(10, 1).len() != name_cell(10, 6).len());
    assert(name_cell(10, 1)[0] != name_cell(10, 7)[0]);
    assert(name_cell(10, 1).len() != name_cell(10, 8).len());
    assert(name_cell(10, 1)[0] != name_cell(10, 9)[0]);
    assert(name_cell(10, 1)[0] != name_cell(10, 10)[0]);
    assert(name_cell(10, 1)[0] != name_cell(10, 11)[0]);
    assert(name_cell(10, 2)[0] != name_cell(10, 3)[0]);
    assert(name_cell(10, 2).len() != name_cell(10, 4).len());
    assert(name_cell(10, 2).len() != name_cell(10, 5).len());
    assert(name_cell(10, 2).len() != name_cell(10, 6).len());
    assert(name_cell(10, 2)[0] != name_cell(10, 7)[0]);
    assert(name_cell(10, 2).len() != name_cell(10, 8).len());
    assert(name_cell(10, 2)[0] != name_cell(10, 9)[0]);
    assert(name_cell(10, 2)[0] != name_cell(10, 10)[0]);
    assert(name_cell(10, 2)[0] != name_cell(10, 11)[0]);
    assert(name_cell(10, 3).len() != name_cell(10, 4).len());
    assert(name_cell(10, 3).len() != name_cell(10, 5).len());
    assert(name_cell(10, 3).len() != name_cell(10, 6).len());
    assert(name_cell(10, 3)[0] != name_cell(10, 7)[0]);
    assert(name_cell(10, 3).len() != name_cell(10, 8).len());
    assert(name_cell(10, 3)[0] != name_cell(10, 9)[0]);
    assert(name_cell(10, 3)[0] != name_cell(10, 10)[0]);
    assert(name_cell(10, 3)[0] != name_cell(10, 11)[0]);
    assert(name_cell(10, 4)[0] != name_cell(10, 5)[0]);
    assert(name_cell(10, 4)[0] != name_cell(10, 6)[0]);
    assert(name_cell(10, 4).len() != name_cell(10, 7).len());
    assert(name_cell(10, 4)[0] != name_cell(10, 8)[0]);
    assert(name_cell(10, 4).len() != name_cell(10, 9).len());
    assert(name_cell(10, 4).len() != name_cell(10, 10).len());
    assert(name_cell(10, 4).len() != name_cell(10, 11).len());
    assert(name_cell(10, 5)[0] != name_cell(10, 6)[0]);
    assert(name_cell(10, 5).len() != name_cell(10, 7).len());
    assert(name_cell(10, 5)[0] != name_cell(10, 8)[0]);
    assert(name_cell(10, 5).len() != name_cell(10, 9).len());
    assert(name_cell(10, 5).len() != name_cell(10, 10).len());
    assert(name_cell(10, 5).len() != name_cell(10, 11).len());
    assert(name_cell(10, 6).len() != name_cell(10, 7).len());
    assert(name_cell(10, 6)[0] != name_cell(10, 8)[0]);
    assert(name_cell(10, 6).len() != name_cell(10, 9).len());
    assert(name_cell(10, 6).len() != name_cell(10, 10).len());
    assert(name_cell(10, 6).len() != name_cell(10, 11).len());
    assert(name_cell(10, 7).len() != name_cell(10, 8).len());
    assert(name_cell(10, 7)[0] != name_cell(10, 9)[0]);
    assert(name_cell(10, 7)[0] != name_cell(10, 10)[0]);
    assert(name_cell(10, 7)[0] != name_cell(10, 11)[0]);
    assert(name_cell(10, 8).len() != name_cell(10, 9).len());
    assert(name_cell(10, 8).len() != name_cell(10, 10).len());
    assert(name_cell(10, 8).len() != name_cell(10, 11).len());
    assert(name_cell(10, 9)[0] != name_cell(10, 10)[0]);
    assert(name_cell(10, 9)[0] != name_cell(10, 11)[0]);
    assert(name_cell(10, 10)[0] != name_cell(10, 11)[0]);
}

proof fn lemma_row_11_distinct()
    ensures
        forall|i: int, j: int| 0 <= i < 12 && 0 <= j < 12 && i != j ==> name_cell(11, i) != name_cell(11, j),
{
    reveal_strlit("터키어");
    reveal_strlit("영어");
    reveal_strlit("독일어");
    reveal_strlit("프랑스어");
    reveal_strlit("스페인어");
    reveal_strlit("이탈리아어");
    reveal_strlit("포르투갈어");
    reveal_strlit("러시아어");
    reveal_strlit("아랍어");
    reveal_strlit("일본어");
    reveal_strlit("중국어");
    reveal_strlit("한국어");
    assert(name_cell(11, 0).len() != name_cell(11, 1).len());
    assert(name_cell(11, 0)[0] != name_cell(11, 2)[0]);
    assert(name_cell(11, 0).len() != name_cell(11, 3).len());
    assert(name_cell(11, 0).len() != name_cell(11, 4).len());
    assert(name_cell(11, 0).len() != name_cell(11, 5).len());
    assert(name_cell(11, 0).len() != name_cell(11, 6).len());
    assert(name_cell(11, 0).len() != name_cell(11, 7).len());
    assert(name_cell(11, 0)[0] != name_cell(11, 8)[0]);
    assert(name_cell(11, 0)[0] != name_cell(11, 9)[0]);
    assert(name_cell(11, 0)[0] != name_cell(11, 10)[0]);
    assert(name_cell(11, 0)[0] != name_cell(11, 11)[0]);
    assert(name_cell(11, 1).len() != name_cell(11, 2).len());
    assert(name_cell(11, 1).len() != name_cell(11, 3).len());
    assert(name_cell(11, 1).len() != name_cell(11, 4).len());
    assert(name_cell(11, 1).len() != name_cell(11, 5).len());
    assert(name_cell(11, 1).len() != name_cell(11, 6).len());
    assert(name_cell(11, 1).len() != name_cell(11, 7).len());
    assert(name_cell(11, 1).len() != name_cell(11, 8).len());
    assert(name_cell(11, 1).len() != name_cell(11, 9).len());
    assert(name_cell(11, 1).len() != name_cell(11, 10).len());
    assert(name_cell(11, 1).len() != name_cell(11, 11).len());
    assert(name_cell(11, 2).len() != name_cell(11, 3).len());
    assert(name_cell(11, 2).len() != name_cell(11, 4).len());
    assert(name_cell(11, 2).len() != name_cell(11, 5).len());
    assert(name_cell(11, 2).len() != name_cell(11, 6).len());
    assert(name_cell(11, 2).len() != name_cell(11, 7).len());
    assert(name_cell(11, 2)[0] != name_cell(11, 8)[0]);
    assert(name_cell(11, 2)[0] != name_cell(11, 9)[0]);
    assert(name_cell(11, 2)[0] != name_cell(11, 10)[0]);
    assert(name_cell(11, 2)[0] != name_cell(11, 11)[0]);
    assert(name_cell(11, 3)[0] != name_cell(11, 4)[0]);
    assert(name_cell(11, 3).len() != name_cell(11, 5).len());
    assert(name_cell(11, 3).len() != name_cell(11, 6).len());
    assert(name_cell(11, 3)[0] != name_cell(11, 7)[0]);
    assert(name_cell(11, 3).len() != name_cell(11, 8).len());
    assert(name_cell(11, 3).len() != name_cell(11, 9).len());
    assert(name_cell(11, 3).len() != name_cell(11, 10).len());
    assert(name_cell(11, 3).len() != name_cell(11, 11).len());
    assert(name_cell(11, 4).len() != name_cell(11, 5).len());
    assert(name_cell(11, 4).len() != name_cell(11, 6).len());
    assert(name_cell(11, 4)[0] != name_cell(11, 7)[0]);
    assert(name_cell(11, 4).len() != name_cell(11, 8).len());
    assert(name_cell(11, 4).len() != name_cell(11, 9).len());
    assert(name_cell(11, 4).len() != name_cell(11, 10).len());
    assert(name_cell(11, 4).len() != name_cell(11, 11).len());
    assert(name_cell(11, 5)[0] != name_cell(11, 6)[0]);
    assert(name_cell(11, 5).len() != name_cell(11, 7).len());
    assert(name_cell(11, 5).len() != name_cell(11, 8).len());
    assert(name_cell(11, 5).len() != name_cell(11, 9).len());
    assert(name_cell(11, 5).len() != name_cell(11, 10).len());
    assert(name_cell(11, 5).len() != name_cell(11, 11).len());
    assert(name_cell(11, 6).len() != name_cell(11, 7).len());
    assert(name_cell(11, 6).len() != name_cell(11, 8).len());
    assert(name_cell(11, 6).len() != name_cell(11, 9).len());
    assert(name_cell(11, 6).len() != name_cell(11, 10).len());
    assert(name_cell(11, 6).len() != name_cell(11, 11).len());
    assert(name_cell(11, 7).len() != name_cell(11, 8).len());
    assert(name_cell(11, 7).len() != name_cell(11, 9).len());
    assert(name_cell(11, 7).len() != name_cell(11, 10).len());
    assert(name_cell(11, 7).len() != name_cell(11, 11).len());
    assert(name_cell(11, 8)[0] != name_cell(11, 9)[0]);
    assert(name_cell(11, 8)[0] != name_cell(11, 10)[0]);
    assert(name_cell(11, 8)[0] != name_cell(11, 11)[0]);
    assert(name_cell(11, 9)[0] != name_cell(11, 10)[0]);
    assert(name_cell(11, 9)[0] != name_cell(11, 11)[0]);
    assert(name_cell(11, 10)[0] != name_cell(11, 11)[0]);
}

} // verus!
