//! Properties of the built-in rule tables, checked text by text: the
//! first rule of every interface language is a target-language rule that
//! holds both language placeholders, no other rule holds one, and the person
//! rule speaks of they/them exactly when English is involved.
use vstd::prelude::*;
use crate::lang::{lang_index, spec_is_lang, ui_row};
use crate::prompt_laws::{lemma_target_template, lemma_trim_keeps_prefix, target_prefix};
use crate::prompts::{person_cell, spec_is_target_rule, spec_person_rule, spec_rule_templates, template_cell};
use crate::text::{contains, occurs_at, starts_with, trim};

verus! {

/// An index below 200 is one of 0, 1, ..., 199, so that a property of a
/// built-in text can be checked character by character.
pub proof fn lemma_small_index(k: int)
    requires
        0 <= k < 200,
    ensures
        k == 0 || k == 1 || k == 2 || k == 3 || k == 4 || k == 5 || k == 6 || k == 7 || k == 8 || k == 9 ||
        k == 10 || k == 11 || k == 12 || k == 13 || k == 14 || k == 15 || k == 16 || k == 17 || k == 18 || k == 19 ||
        k == 20 || k == 21 || k == 22 || k == 23 || k == 24 || k == 25 || k == 26 || k == 27 || k == 28 || k == 29 ||
        k == 30 || k == 31 || k == 32 || k == 33 || k == 34 || k == 35 || k == 36 || k == 37 || k == 38 || k == 39 ||
        k == 40 || k == 41 || k == 42 || k == 43 || k == 44 || k == 45 || k == 46 || k == 47 || k == 48 || k == 49 ||
        k == 50 || k == 51 || k == 52 || k == 53 || k == 54 || k == 55 || k == 56 || k == 57 || k == 58 || k == 59 ||
        k == 60 || k == 61 || k == 62 || k == 63 || k == 64 || k == 65 || k == 66 || k == 67 || k == 68 || k == 69 ||
        k == 70 || k == 71 || k == 72 || k == 73 || k == 74 || k == 75 || k == 76 || k == 77 || k == 78 || k == 79 ||
        k == 80 || k == 81 || k == 82 || k == 83 || k == 84 || k == 85 || k == 86 || k == 87 || k == 88 || k == 89 ||
        k == 90 || k == 91 || k == 92 || k == 93 || k == 94 || k == 95 || k == 96 || k == 97 || k == 98 || k == 99 ||
        k == 100 || k == 101 || k == 102 || k == 103 || k == 104 || k == 105 || k == 106 || k == 107 || k == 108 || k == 109 ||
        k == 110 || k == 111 || k == 112 || k == 113 || k == 114 || k == 115 || k == 116 || k == 117 || k == 118 || k == 119 ||
        k == 120 || k == 121 || k == 122 || k == 123 || k == 124 || k == 125 || k == 126 || k == 127 || k == 128 || k == 129 ||
        k == 130 || k == 131 || k == 132 || k == 133 || k == 134 || k == 135 || k == 136 || k == 137 || k == 138 || k == 139 ||
        k == 140 || k == 141 || k == 142 || k == 143 || k == 144 || k == 145 || k == 146 || k == 147 || k == 148 || k == 149 ||
        k == 150 || k == 151 || k == 152 || k == 153 || k == 154 || k == 155 || k == 156 || k == 157 || k == 158 || k == 159 ||
        k == 160 || k == 161 || k == 162 || k == 163 || k == 164 || k == 165 || k == 166 || k == 167 || k == 168 || k == 169 ||
        k == 170 || k == 171 || k == 172 || k == 173 || k == 174 || k == 175 || k == 176 || k == 177 || k == 178 || k == 179 ||
        k == 180 || k == 181 || k == 182 || k == 183 || k == 184 || k == 185 || k == 186 || k == 187 || k == 188 || k == 189 ||
        k == 190 || k == 191 || k == 192 || k == 193 || k == 194 || k == 195 || k == 196 || k == 197 || k == 198 || k == 199,
{
}

/// A text in which the `m`-th character of `p` never occurs does not
/// contain `p`.
pub proof fn lemma_absent(s: Seq<char>, p: Seq<char>, m: int)
    requires
        0 <= m < p.len(),
        forall|k: int| 0 <= k < s.len() ==> s[k] != p[m],
    ensures
        !contains(s, p),
{
    if contains(s, p) {
        let i = choose|i: int| occurs_at(s, p, i);
        assert(s.subrange(i, i + p.len())[m] == s[i + m]);
    }
}

/// Person rules of row 0: only the English-person one names they/them, and
/// neither holds a language placeholder.
proof fn lemma_person_row_0()
    ensures
        contains(person_cell(0, 1), "they/them"@),
        !contains(person_cell(0, 0), "they/them"@),
        !contains(person_cell(0, 0), "{native}"@),
        !contains(person_cell(0, 0), "{foreign}"@),
        !contains(person_cell(0, 1), "{native}"@),
        !contains(person_cell(0, 1), "{foreign}"@),
{
    reveal_strlit("they/them");
    reveal_strlit("{native}");
    reveal_strlit("{foreign}");
    reveal_strlit("Şahıs aynen kalsın. Konuşulan kişi, konuşan kişi ve üçüncü kişi yer değiştirmesin.");
    reveal_strlit("Şahıs aynen kalsın. sen = you, ben = I, o = he. Çıktı İngilizceyse they/them veya he/she yazma.");
    let f = person_cell(0, 0);
    let t = person_cell(0, 1);
    assert(t.subrange(67, 76) =~= "they/them"@);
    assert(occurs_at(t, "they/them"@, 67));
    assert forall|k: int| 0 <= k < f.len() implies f[k] != '/' by {
        lemma_small_index(k);
    }
    lemma_absent(f, "they/them"@, 4);
    assert forall|k: int| 0 <= k < f.len() implies f[k] != '{' by {
        lemma_small_index(k);
    }
    lemma_absent(f, "{native}"@, 0);
    lemma_absent(f, "{foreign}"@, 0);
    assert forall|k: int| 0 <= k < t.len() implies t[k] != '{' by {
        lemma_small_index(k);
    }
    lemma_absent(t, "{native}"@, 0);
    lemma_absent(t, "{foreign}"@, 0);
}

/// Person rules of row 1: only the English-person one names they/them, and
/// neither holds a language placeholder.
proof fn lemma_person_row_1()
    ensures
        contains(person_cell(1, 1), "they/them"@),
        !contains(person_cell(1, 0), "they/them"@),
        !contains(person_cell(1, 0), "{native}"@),
        !contains(person_cell(1, 0), "{foreign}"@),
        !contains(person_cell(1, 1), "{native}"@),
        !contains(person_cell(1, 1), "{foreign}"@),
{
    reveal_strlit("they/them");
    reveal_strlit("{native}");
    reveal_strlit("{foreign}");
    reveal_strlit("Keep the person. Do not swap the listener, the speaker, or a third person.");
    reveal_strlit("Keep the person. you stays you, I stays I, he stays he. If the output is English, do not write they/them or he/she.");
    let f = person_cell(1, 0);
    let t = person_cell(1, 1);
    assert(t.subrange(95, 104) =~= "they/them"@);
    assert(occurs_at(t, "they/them"@, 95));
    assert forall|k: int| 0 <= k < f.len() implies f[k] != '/' by {
        lemma_small_index(k);
    }
    lemma_absent(f, "they/them"@, 4);
    assert forall|k: int| 0 <= k < f.len() implies f[k] != '{' by {
        lemma_small_index(k);
    }
    lemma_absent(f, "{native}"@, 0);
    lemma_absent(f, "{foreign}"@, 0);
    assert forall|k: int| 0 <= k < t.len() implies t[k] != '{' by {
        lemma_small_index(k);
    }
    lemma_absent(t, "{native}"@, 0);
    lemma_absent(t, "{foreign}"@, 0);
}

/// Person rules of row 2: only the English-person one names they/them, and
/// neither holds a language placeholder.
proof fn lemma_person_row_2()
    ensures
        contains(person_cell(2, 1), "they/them"@),
        !contains(person_cell(2, 0), "they/them"@),
        !contains(person_cell(2, 0), "{native}"@),
        !contains(person_cell(2, 0), "{foreign}"@),
        !contains(person_cell(2, 1), "{native}"@),
        !contains(person_cell(2, 1), "{foreign}"@),
{
    reveal_strlit("they/them");
    reveal_strlit("{native}");
    reveal_strlit("{foreign}");
    reveal_strlit("Die Person bleibt. Angesprochene Person, sprechende Person und eine dritte Person tauschen nicht die Rolle.");
    reveal_strlit("Die Person bleibt. du = you, ich = I, er = he. Wenn die Ausgabe Englisch ist, schreibe nicht they/them oder he/she.");
    let f = person_cell(2, 0);
    let t = person_cell(2, 1);
    assert(t.subrange(93, 102) =~= "they/them"@);
    assert(occurs_at(t, "they/them"@, 93));
    assert forall|k: int| 0 <= k < f.len() implies f[k] != '/' by {
        lemma_small_index(k);
    }
    lemma_absent(f, "they/them"@, 4);
    assert forall|k: int| 0 <= k < f.len() implies f[k] != '{' by {
        lemma_small_index(k);
    }
    lemma_absent(f, "{native}"@, 0);
    lemma_absent(f, "{foreign}"@, 0);
    assert forall|k: int| 0 <= k < t.len() implies t[k] != '{' by {
        lemma_small_index(k);
    }
    lemma_absent(t, "{native}"@, 0);
    lemma_absent(t, "{foreign}"@, 0);
}

/// Person rules of row 3: only the English-person one names they/them, and
/// neither holds a language placeholder.
proof fn lemma_person_row_3()
    ensures
        contains(person_cell(3, 1), "they/them"@),
        !contains(person_cell(3, 0), "they/them"@),
        !contains(person_cell(3, 0), "{native}"@),
        !contains(person_cell(3, 0), "{foreign}"@),
        !contains(person_cell(3, 1), "{native}"@),
        !contains(person_cell(3, 1), "{foreign}"@),
{
    reveal_strlit("they/them");
    reveal_strlit("{native}");
    reveal_strlit("{foreign}");
    reveal_strlit("La personne reste. La personne à qui l'on parle, celle qui parle et une troisième personne ne changent pas de rôle.");
    reveal_strlit("La personne reste. tu = you, je = I, il = he. Si la sortie est en anglais, n'écris pas they/them ni he/she.");
    let f = person_cell(3, 0);
    let t = person_cell(3, 1);
    assert(t.subrange(87, 96) =~= "they/them"@);
    assert(occurs_at(t, "they/them"@, 87));
    assert forall|k: int| 0 <= k < f.len() implies f[k] != '/' by {
        lemma_small_index(k);
    }
    lemma_absent(f, "they/them"@, 4);
    assert forall|k: int| 0 <= k < f.len() implies f[k] != '{' by {
        lemma_small_index(k);
    }
    lemma_absent(f, "{native}"@, 0);
    lemma_absent(f, "{foreign}"@, 0);
    assert forall|k: int| 0 <= k < t.len() implies t[k] != '{' by {
        lemma_small_index(k);
    }
    lemma_absent(t, "{native}"@, 0);
    lemma_absent(t, "{foreign}"@, 0);
}

/// Person rules of row 4: only the English-person one names they/them, and
/// neither holds a language placeholder.
proof fn lemma_person_row_4()
    ensures
        contains(person_cell(4, 1), "they/them"@),
        !contains(person_cell(4, 0), "they/them"@),
        !contains(person_cell(4, 0), "{native}"@),
        !contains(person_cell(4, 0), "{foreign}"@),
        !contains(person_cell(4, 1), "{native}"@),
        !contains(person_cell(4, 1), "{foreign}"@),
{
    reveal_strlit("they/them");
    reveal_strlit("{native}");
    reveal_strlit("{foreign}");
    reveal_strlit("La persona se mantiene. Quien escucha, quien habla y una tercera persona no cambian de papel.");
    reveal_strlit("La persona se mantiene. tú = you, yo = I, él = he. Si la salida es inglés, no escribas they/them ni he/she.");
    let f = person_cell(4, 0);
    let t = person_cell(4, 1);
    assert(t.subrange(87, 96) =~= "they/them"@);
    assert(occurs_at(t, "they/them"@, 87));
    assert forall|k: int| 0 <= k < f.len() implies f[k] != '/' by {
        lemma_small_index(k);
    }
    lemma_absent(f, "they/them"@, 4);
    assert forall|k: int| 0 <= k < f.len() implies f[k] != '{' by {
        lemma_small_index(k);
    }
    lemma_absent(f, "{native}"@, 0);
    lemma_absent(f, "{foreign}"@, 0);
    assert forall|k: int| 0 <= k < t.len() implies t[k] != '{' by {
        lemma_small_index(k);
    }
    lemma_absent(t, "{native}"@, 0);
    lemma_absent(t, "{foreign}"@, 0);
}

/// Person rules of row 5: only the English-person one names they/them, and
/// neither holds a language placeholder.
proof fn lemma_person_row_5()
    ensures
        contains(person_cell(5, 1), "they/them"@),
        !contains(person_cell(5, 0), "they/them"@),
        !contains(person_cell(5, 0), "{native}"@),
        !contains(person_cell(5, 0), "{foreign}"@),
        !contains(person_cell(5, 1), "{native}"@),
        !contains(person_cell(5, 1), "{foreign}"@),
{
    reveal_strlit("they/them");
    reveal_strlit("{native}");
    reveal_strlit("{foreign}");
    reveal_strlit("La persona resta. Chi ascolta, chi parla e una terza persona non si scambiano.");
    reveal_strlit("La persona resta. tu = you, io = I, lui = he. Se l'uscita è inglese, non scrivere they/them o he/she.");
    let f = person_cell(5, 0);
    let t = person_cell(5, 1);
    assert(t.subrange(82, 91) =~= "they/them"@);
    assert(occurs_at(t, "they/them"@, 82));
    assert forall|k: int| 0 <= k < f.len() implies f[k] != '/' by {
        lemma_small_index(k);
    }
    lemma_absent(f, "they/them"@, 4);
    assert forall|k: int| 0 <= k < f.len() implies f[k] != '{' by {
        lemma_small_index(k);
    }
    lemma_absent(f, "{native}"@, 0);
    lemma_absent(f, "{foreign}"@, 0);
    assert forall|k: int| 0 <= k < t.len() implies t[k] != '{' by {
        lemma_small_index(k);
    }
    lemma_absent(t, "{native}"@, 0);
    lemma_absent(t, "{foreign}"@, 0);
}

/// Person rules of row 6: only the English-person one names they/them, and
/// neither holds a language placeholder.
proof fn lemma_person_row_6()
    ensures
        contains(person_cell(6, 1), "they/them"@),
        !contains(person_cell(6, 0), "they/them"@),
        !contains(person_cell(6, 0), "{native}"@),
        !contains(person_cell(6, 0), "{foreign}"@),
        !contains(person_cell(6, 1), "{native}"@),
        !contains(person_cell(6, 1), "{foreign}"@),
{
    reveal_strlit("they/them");
    reveal_strlit("{native}");
    reveal_strlit("{foreign}");
    reveal_strlit("A pessoa mantém-se. Quem ouve, quem fala e uma terceira pessoa não trocam de papel.");
    reveal_strlit("A pessoa mantém-se. tu = you, eu = I, ele = he. Se a saída for inglês, não escrevas they/them nem he/she.");
    let f = person_cell(6, 0);
    let t = person_cell(6, 1);
    assert(t.subrange(84, 93) =~= "they/them"@);
    assert(occurs_at(t, "they/them"@, 84));
    assert forall|k: int| 0 <= k < f.len() implies f[k] != '/' by {
        lemma_small_index(k);
    }
    lemma_absent(f, "they/them"@, 4);
    assert forall|k: int| 0 <= k < f.len() implies f[k] != '{' by {
        lemma_small_index(k);
    }
    lemma_absent(f, "{native}"@, 0);
    lemma_absent(f, "{foreign}"@, 0);
    assert forall|k: int| 0 <= k < t.len() implies t[k] != '{' by {
        lemma_small_index(k);
    }
    lemma_absent(t, "{native}"@, 0);
    lemma_absent(t, "{foreign}"@, 0);
}

/// Person rules of row 7: only the English-person one names they/them, and
/// neither holds a language placeholder.
proof fn lemma_person_row_7()
    ensures
        contains(person_cell(7, 1), "they/them"@),
        !contains(person_cell(7, 0), "they/them"@),
        !contains(person_cell(7, 0), "{native}"@),
        !contains(person_cell(7, 0), "{foreign}"@),
        !contains(person_cell(7, 1), "{native}"@),
        !contains(person_cell(7, 1), "{foreign}"@),
{
    reveal_strlit("they/them");
    reveal_strlit("{native}");
    reveal_strlit("{foreign}");
    reveal_strlit("Лицо сохраняется. Собеседник, говорящий и третье лицо не меняются местами.");
    reveal_strlit("Лицо сохраняется. ты = you, я = I, он = he. Если ответ на английском, не пиши they/them или he/she.");
    let f = person_cell(7, 0);
    let t = person_cell(7, 1);
    assert(t.subrange(78, 87) =~= "they/them"@);
    assert(occurs_at(t, "they/them"@, 78));
    assert forall|k: int| 0 <= k < f.len() implies f[k] != '/' by {
        lemma_small_index(k);
    }
    lemma_absent(f, "they/them"@, 4);
    assert forall|k: int| 0 <= k < f.len() implies f[k] != '{' by {
        lemma_small_index(k);
    }
    lemma_absent(f, "{native}"@, 0);
    lemma_absent(f, "{foreign}"@, 0);
    assert forall|k: int| 0 <= k < t.len() implies t[k] != '{' by {
        lemma_small_index(k);
    }
    lemma_absent(t, "{native}"@, 0);
    lemma_absent(t, "{foreign}"@, 0);
}

/// Person rules of row 8: only the English-person one names they/them, and
/// neither holds a language placeholder.
proof fn lemma_person_row_8()
    ensures
        contains(person_cell(8, 1), "they/them"@),
        !contains(person_cell(8, 0), "they/them"@),
        !contains(person_cell(8, 0), "{native}"@),
        !contains(person_cell(8, 0), "{foreign}"@),
        !contains(person_cell(8, 1), "{native}"@),
        !contains(person_cell(8, 1), "{foreign}"@),
{
    reveal_strlit("they/them");
    reveal_strlit("{native}");
    reveal_strlit("{foreign}");
    reveal_strlit("الضمير يبقى. المخاطَب والمتكلم والغائب لا يتبادلون الأدوار.");
    reveal_strlit("الضمير يبقى. أنت = you، أنا = I، هو = he. إذا كان الناتج إنجليزيًا فلا تكتب they/them أو he/she.");
    let f = person_cell(8, 0);
    let t = person_cell(8, 1);
    assert(t.subrange(76, 85) =~= "they/them"@);
    assert(occurs_at(t, "they/them"@, 76));
    assert forall|k: int| 0 <= k < f.len() implies f[k] != '/' by {
        lemma_small_index(k);
    }
    lemma_absent(f, "they/them"@, 4);
    assert forall|k: int| 0 <= k < f.len() implies f[k] != '{' by {
        lemma_small_index(k);
    }
    lemma_absent(f, "{native}"@, 0);
    lemma_absent(f, "{foreign}"@, 0);
    assert forall|k: int| 0 <= k < t.len() implies t[k] != '{' by {
        lemma_small_index(k);
    }
    lemma_absent(t, "{native}"@, 0);
    lemma_absent(t, "{foreign}"@, 0);
}

/// Person rules of row 9: only the English-person one names they/them, and
/// neither holds a language placeholder.
proof fn lemma_person_row_9()
    ensures
        contains(person_cell(9, 1), "they/them"@),
        !contains(person_cell(9, 0), "they/them"@),
        !contains(person_cell(9, 0), "{native}"@),
        !contains(person_cell(9, 0), "{foreign}"@),
        !contains(person_cell(9, 1), "{native}"@),
        !contains(person_cell(9, 1), "{foreign}"@),
{
    reveal_strlit("they/them");
    reveal_strlit("{native}");
    reveal_strlit("{foreign}");
    reveal_strlit("人称はそのまま。話しかけられている人、話している人、第三者を入れ替えない。");
    reveal_strlit("人称はそのまま。あなた = you、私 = I、彼 = he。出力が英語なら they/them や he/she は書かない。");
    let f = person_cell(9, 0);
    let t = person_cell(9, 1);
    assert(t.subrange(39, 48) =~= "they/them"@);
    assert(occurs_at(t, "they/them"@, 39));
    assert forall|k: int| 0 <= k < f.len() implies f[k] != '/' by {
        lemma_small_index(k);
    }
    lemma_absent(f, "they/them"@, 4);
    assert forall|k: int| 0 <= k < f.len() implies f[k] != '{' by {
        lemma_small_index(k);
    }
    lemma_absent(f, "{native}"@, 0);
    lemma_absent(f, "{foreign}"@, 0);
    assert forall|k: int| 0 <= k < t.len() implies t[k] != '{' by {
        lemma_small_index(k);
    }
    lemma_absent(t, "{native}"@, 0);
    lemma_absent(t, "{foreign}"@, 0);
}

/// Person rules of row 10: only the English-person one names they/them, and
/// neither holds a language placeholder.
proof fn lemma_person_row_10()
    ensures
        contains(person_cell(10, 1), "they/them"@),
        !contains(person_cell(10, 0), "they/them"@),
        !contains(person_cell(10, 0), "{native}"@),
        !contains(person_cell(10, 0), "{foreign}"@),
        !contains(person_cell(10, 1), "{native}"@),
        !contains(person_cell(10, 1), "{foreign}"@),
{
    reveal_strlit("they/them");
    reveal_strlit("{native}");
    reveal_strlit("{foreign}");
    reveal_strlit("人称保持不变。听话的人、说话的人和第三者不要对调。");
    reveal_strlit("人称保持不变。你 = you，我 = I，他 = he。如果输出是英语，不要写 they/them 或 he/she。");
    let f = person_cell(10, 0);
    let t = person_cell(10, 1);
    assert(t.subrange(40, 49) =~= "they/them"@);
    assert(occurs_at(t, "they/them"@, 40));
    assert forall|k: int| 0 <= k < f.len() implies f[k] != '/' by {
        lemma_small_index(k);
    }
    lemma_absent(f, "they/them"@, 4);
    assert forall|k: int| 0 <= k < f.len() implies f[k] != '{' by {
        lemma_small_index(k);
    }
    lemma_absent(f, "{native}"@, 0);
    lemma_absent(f, "{foreign}"@, 0);
    assert forall|k: int| 0 <= k < t.len() implies t[k] != '{' by {
        lemma_small_index(k);
    }
    lemma_absent(t, "{native}"@, 0);
    lemma_absent(t, "{foreign}"@, 0);
}

/// Person rules of row 11: only the English-person one names they/them, and
/// neither holds a language placeholder.
proof fn lemma_person_row_11()
    ensures
        contains(person_cell(11, 1), "they/them"@),
        !contains(person_cell(11, 0), "they/them"@),
        !contains(person_cell(11, 0), "{native}"@),
        !contains(person_cell(11, 0), "{foreign}"@),
        !contains(person_cell(11, 1), "{native}"@),
        !contains(person_cell(11, 1), "{foreign}"@),
{
    reveal_strlit("they/them");
    reveal_strlit("{native}");
    reveal_strlit("{foreign}");
    reveal_strlit("인칭은 그대로 둔다. 듣는 사람, 말하는 사람, 제삼자를 바꾸지 않는다.");
    reveal_strlit("인칭은 그대로 둔다. 너 = you, 나 = I, 그 = he. 결과가 영어면 they/them 이나 he/she 를 쓰지 않는다.");
    let f = person_cell(11, 0);
    let t = person_cell(11, 1);
    assert(t.subrange(44, 53) =~= "they/them"@);
    assert(occurs_at(t, "they/them"@, 44));
    assert forall|k: int| 0 <= k < f.len() implies f[k] != '/' by {
        lemma_small_index(k);
    }
    lemma_absent(f, "they/them"@, 4);
    assert forall|k: int| 0 <= k < f.len() implies f[k] != '{' by {
        lemma_small_index(k);
    }
    lemma_absent(f, "{native}"@, 0);
    lemma_absent(f, "{foreign}"@, 0);
    assert forall|k: int| 0 <= k < t.len() implies t[k] != '{' by {
        lemma_small_index(k);
    }
    lemma_absent(t, "{native}"@, 0);
    lemma_absent(t, "{foreign}"@, 0);
}

/// Rule templates of row 0: the first holds both language placeholders, the
/// others hold none.
proof fn lemma_template_row_0()
    ensures
        contains(template_cell(0, 0), "{native}"@),
        contains(template_cell(0, 0), "{foreign}"@),
        !contains(template_cell(0, 1), "{native}"@),
        !contains(template_cell(0, 1), "{foreign}"@),
        !contains(template_cell(0, 2), "{native}"@),
        !contains(template_cell(0, 2), "{foreign}"@),
        !contains(template_cell(0, 3), "{native}"@),
        !contains(template_cell(0, 3), "{foreign}"@),
        !contains(template_cell(0, 4), "{native}"@),
        !contains(template_cell(0, 4), "{foreign}"@),
        !contains(template_cell(0, 5), "{native}"@),
        !contains(template_cell(0, 5), "{foreign}"@),
        !contains(template_cell(0, 6), "{native}"@),
        !contains(template_cell(0, 6), "{foreign}"@),
        !contains(template_cell(0, 7), "{native}"@),
        !contains(template_cell(0, 7), "{foreign}"@),
{
    reveal_strlit("{native}");
    reveal_strlit("{foreign}");
    reveal_strlit("Hedef dil: Kaynak {native} ise çıktı {foreign} olur. Kaynak {native} değilse çıktı her zaman {native} olur. Başka hiçbir dile çevirme.");
    reveal_strlit("Sadece çeviriyi yaz. Açıklama, yorum, not, alternatif çeviri veya gereksiz hiçbir şey ekleme.");
    reveal_strlit("Çeviri gündelik, doğal ve sade insan konuşması gibi olsun. Kelimesi kelimesine mekanik çeviri yapma; anlamı ve konuşma tarzını koru.");
    reveal_strlit("Çeviri içinde tırnak içine alınmış terimleri ASLA çevirme. Aynı şekilde bırak.");
    reveal_strlit("Tırnak içindeki ifade özel bir isim, teknik terim, değişken adı veya özellik adı olsa bile değiştirme.");
    reveal_strlit("Çevirinin doğal olması için gerektiğinde cümle yapısını değiştirebilirsin, ancak anlamı ve şahsı değiştirme.");
    reveal_strlit("Küfür, argo, günlük konuşma veya samimi ifadeler varsa bunları sansürleme; hedef dile doğal şekilde aktar.");
    reveal_strlit("Bana yalnızca nihai çeviriyi gönder.");
    let h = template_cell(0, 0);
    assert(h.subrange(18, 26) =~= "{native}"@);
    assert(occurs_at(h, "{native}"@, 18));
    assert(h.subrange(37, 46) =~= "{foreign}"@);
    assert(occurs_at(h, "{foreign}"@, 37));
    let t1 = template_cell(0, 1);
    assert forall|k: int| 0 <= k < t1.len() implies t1[k] != '{' by {
        lemma_small_index(k);
    }
    lemma_absent(t1, "{native}"@, 0);
    lemma_absent(t1, "{foreign}"@, 0);
    let t2 = template_cell(0, 2);
    assert forall|k: int| 0 <= k < t2.len() implies t2[k] != '{' by {
        lemma_small_index(k);
    }
    lemma_absent(t2, "{native}"@, 0);
    lemma_absent(t2, "{foreign}"@, 0);
    let t3 = template_cell(0, 3);
    assert forall|k: int| 0 <= k < t3.len() implies t3[k] != '{' by {
        lemma_small_index(k);
    }
    lemma_absent(t3, "{native}"@, 0);
    lemma_absent(t3, "{foreign}"@, 0);
    let t4 = template_cell(0, 4);
    assert forall|k: int| 0 <= k < t4.len() implies t4[k] != '{' by {
        lemma_small_index(k);
    }
    lemma_absent(t4, "{native}"@, 0);
    lemma_absent(t4, "{foreign}"@, 0);
    let t5 = template_cell(0, 5);
    assert forall|k: int| 0 <= k < t5.len() implies t5[k] != '{' by {
        lemma_small_index(k);
    }
    lemma_absent(t5, "{native}"@, 0);
    lemma_absent(t5, "{foreign}"@, 0);
    let t6 = template_cell(0, 6);
    assert forall|k: int| 0 <= k < t6.len() implies t6[k] != '{' by {
        lemma_small_index(k);
    }
    lemma_absent(t6, "{native}"@, 0);
    lemma_absent(t6, "{foreign}"@, 0);
    let t7 = template_cell(0, 7);
    assert forall|k: int| 0 <= k < t7.len() implies t7[k] != '{' by {
        lemma_small_index(k);
    }
    lemma_absent(t7, "{native}"@, 0);
    lemma_absent(t7, "{foreign}"@, 0);
}

/// Rule templates of row 1: the first holds both language placeholders, the
/// others hold none.
proof fn lemma_template_row_1()
    ensures
        contains(template_cell(1, 0), "{native}"@),
        contains(template_cell(1, 0), "{foreign}"@),
        !contains(template_cell(1, 1), "{native}"@),
        !contains(template_cell(1, 1), "{foreign}"@),
        !contains(template_cell(1, 2), "{native}"@),
        !contains(template_cell(1, 2), "{foreign}"@),
        !contains(template_cell(1, 3), "{native}"@),
        !contains(template_cell(1, 3), "{foreign}"@),
        !contains(template_cell(1, 4), "{native}"@),
        !contains(template_cell(1, 4), "{foreign}"@),
        !contains(template_cell(1, 5), "{native}"@),
        !contains(template_cell(1, 5), "{foreign}"@),
        !contains(template_cell(1, 6), "{native}"@),
        !contains(template_cell(1, 6), "{foreign}"@),
        !contains(template_cell(1, 7), "{native}"@),
        !contains(template_cell(1, 7), "{foreign}"@),
{
    reveal_strlit("{native}");
    reveal_strlit("{foreign}");
    reveal_strlit("Target language: if the source is {native}, the output is {foreign}. If the source is not {native}, the output is always {native}. Do not translate into any other language.");
    reveal_strlit("Write only the translation. Do not add an explanation, a note, or an alternative.");
    reveal_strlit("Sound like everyday speech. Do not translate word for word. Keep the meaning and the tone.");
    reveal_strlit("Never translate terms inside quotation marks. Leave them as they are.");
    reveal_strlit("Even if the quoted text is a name, a technical term, a variable, or a feature name, leave it unchanged.");
    reveal_strlit("You may change the sentence structure so it sounds natural, but do not change the meaning or the person.");
    reveal_strlit("If there is swearing, slang, or casual talk, do not censor it. Carry it naturally into the target language.");
    reveal_strlit("Send only the final translation.");
    let h = template_cell(1, 0);
    assert(h.subrange(34, 42) =~= "{native}"@);
    assert(occurs_at(h, "{native}"@, 34));
    assert(h.subrange(58, 67) =~= "{foreign}"@);
    assert(occurs_at(h, "{foreign}"@, 58));
    let t1 = template_cell(1, 1);
    assert forall|k: int| 0 <= k < t1.len() implies t1[k] != '{' by {
        lemma_small_index(k);
    }
    lemma_absent(t1, "{native}"@, 0);
    lemma_absent(t1, "{foreign}"@, 0);
    let t2 = template_cell(1, 2);
    assert forall|k: int| 0 <= k < t2.len() implies t2[k] != '{' by {
        lemma_small_index(k);
    }
    lemma_absent(t2, "{native}"@, 0);
    lemma_absent(t2, "{foreign}"@, 0);
    let t3 = template_cell(1, 3);
    assert forall|k: int| 0 <= k < t3.len() implies t3[k] != '{' by {
        lemma_small_index(k);
    }
    lemma_absent(t3, "{native}"@, 0);
    lemma_absent(t3, "{foreign}"@, 0);
    let t4 = template_cell(1, 4);
    assert forall|k: int| 0 <= k < t4.len() implies t4[k] != '{' by {
        lemma_small_index(k);
    }
    lemma_absent(t4, "{native}"@, 0);
    lemma_absent(t4, "{foreign}"@, 0);
    let t5 = template_cell(1, 5);
    assert forall|k: int| 0 <= k < t5.len() implies t5[k] != '{' by {
        lemma_small_index(k);
    }
    lemma_absent(t5, "{native}"@, 0);
    lemma_absent(t5, "{foreign}"@, 0);
    let t6 = template_cell(1, 6);
    assert forall|k: int| 0 <= k < t6.len() implies t6[k] != '{' by {
        lemma_small_index(k);
    }
    lemma_absent(t6, "{native}"@, 0);
    lemma_absent(t6, "{foreign}"@, 0);
    let t7 = template_cell(1, 7);
    assert forall|k: int| 0 <= k < t7.len() implies t7[k] != '{' by {
        lemma_small_index(k);
    }
    lemma_absent(t7, "{native}"@, 0);
    lemma_absent(t7, "{foreign}"@, 0);
}

/// Rule templates of row 2: the first holds both language placeholders, the
/// others hold none.
proof fn lemma_template_row_2()
    ensures
        contains(template_cell(2, 0), "{native}"@),
        contains(template_cell(2, 0), "{foreign}"@),
        !contains(template_cell(2, 1), "{native}"@),
        !contains(template_cell(2, 1), "{foreign}"@),
        !contains(template_cell(2, 2), "{native}"@),
        !contains(template_cell(2, 2), "{foreign}"@),
        !contains(template_cell(2, 3), "{native}"@),
        !contains(template_cell(2, 3), "{foreign}"@),
        !contains(template_cell(2, 4), "{native}"@),
        !contains(template_cell(2, 4), "{foreign}"@),
        !contains(template_cell(2, 5), "{native}"@),
        !contains(template_cell(2, 5), "{foreign}"@),
        !contains(template_cell(2, 6), "{native}"@),
        !contains(template_cell(2, 6), "{foreign}"@),
        !contains(template_cell(2, 7), "{native}"@),
        !contains(template_cell(2, 7), "{foreign}"@),
{
    reveal_strlit("{native}");
    reveal_strlit("{foreign}");
    reveal_strlit("Zielsprache: Ist die Quelle {native}, ist die Ausgabe {foreign}. Ist die Quelle nicht {native}, ist die Ausgabe immer {native}. Übersetze in keine andere Sprache.");
    reveal_strlit("Schreib nur die Übersetzung. Keine Erklärung, keinen Kommentar, keine Alternative.");
    reveal_strlit("Die Übersetzung soll wie alltägliche gesprochene Sprache klingen. Nicht Wort für Wort. Bedeutung und Ton bleiben.");
    reveal_strlit("Begriffe in Anführungszeichen niemals übersetzen. Sie bleiben gleich.");
    reveal_strlit("Auch Namen, Fachbegriffe, Variablen oder Funktionsnamen in Anführungszeichen bleiben unverändert.");
    reveal_strlit("Du darfst den Satzbau ändern, damit es natürlich klingt, aber nicht die Bedeutung oder die Person.");
    reveal_strlit("Flüche, Slang und lockere Rede nicht zensieren. Natürlich in die Zielsprache übertragen.");
    reveal_strlit("Schick nur die fertige Übersetzung.");
    let h = template_cell(2, 0);
    assert(h.subrange(28, 36) =~= "{native}"@);
    assert(occurs_at(h, "{native}"@, 28));
    assert(h.subrange(54, 63) =~= "{foreign}"@);
    assert(occurs_at(h, "{foreign}"@, 54));
    let t1 = template_cell(2, 1);
    assert forall|k: int| 0 <= k < t1.len() implies t1[k] != '{' by {
        lemma_small_index(k);
    }
    lemma_absent(t1, "{native}"@, 0);
    lemma_absent(t1, "{foreign}"@, 0);
    let t2 = template_cell(2, 2);
    assert forall|k: int| 0 <= k < t2.len() implies t2[k] != '{' by {
        lemma_small_index(k);
    }
    lemma_absent(t2, "{native}"@, 0);
    lemma_absent(t2, "{foreign}"@, 0);
    let t3 = template_cell(2, 3);
    assert forall|k: int| 0 <= k < t3.len() implies t3[k] != '{' by {
        lemma_small_index(k);
    }
    lemma_absent(t3, "{native}"@, 0);
    lemma_absent(t3, "{foreign}"@, 0);
    let t4 = template_cell(2, 4);
    assert forall|k: int| 0 <= k < t4.len() implies t4[k] != '{' by {
        lemma_small_index(k);
    }
    lemma_absent(t4, "{native}"@, 0);
    lemma_absent(t4, "{foreign}"@, 0);
    let t5 = template_cell(2, 5);
    assert forall|k: int| 0 <= k < t5.len() implies t5[k] != '{' by {
        lemma_small_index(k);
    }
    lemma_absent(t5, "{native}"@, 0);
    lemma_absent(t5, "{foreign}"@, 0);
    let t6 = template_cell(2, 6);
    assert forall|k: int| 0 <= k < t6.len() implies t6[k] != '{' by {
        lemma_small_index(k);
    }
    lemma_absent(t6, "{native}"@, 0);
    lemma_absent(t6, "{foreign}"@, 0);
    let t7 = template_cell(2, 7);
    assert forall|k: int| 0 <= k < t7.len() implies t7[k] != '{' by {
        lemma_small_index(k);
    }
    lemma_absent(t7, "{native}"@, 0);
    lemma_absent(t7, "{foreign}"@, 0);
}

/// Rule templates of row 3: the first holds both language placeholders, the
/// others hold none.
proof fn lemma_template_row_3()
    ensures
        contains(template_cell(3, 0), "{native}"@),
        contains(template_cell(3, 0), "{foreign}"@),
        !contains(template_cell(3, 1), "{native}"@),
        !contains(template_cell(3, 1), "{foreign}"@),
        !contains(template_cell(3, 2), "{native}"@),
        !contains(template_cell(3, 2), "{foreign}"@),
        !contains(template_cell(3, 3), "{native}"@),
        !contains(template_cell(3, 3), "{foreign}"@),
        !contains(template_cell(3, 4), "{native}"@),
        !contains(template_cell(3, 4), "{foreign}"@),
        !contains(template_cell(3, 5), "{native}"@),
        !contains(template_cell(3, 5), "{foreign}"@),
        !contains(template_cell(3, 6), "{native}"@),
        !contains(template_cell(3, 6), "{foreign}"@),
        !contains(template_cell(3, 7), "{native}"@),
        !contains(template_cell(3, 7), "{foreign}"@),
{
    reveal_strlit("{native}");
    reveal_strlit("{foreign}");
    reveal_strlit("Langue cible : si la source est en {native}, la sortie est en {foreign}. Si la source n'est pas en {native}, la sortie est toujours en {native}. Ne traduis vers aucune autre langue.");
    reveal_strlit("Écris seulement la traduction. Pas d'explication, de note ou d'alternative.");
    reveal_strlit("La traduction doit sonner comme une parole quotidienne. Pas de mot à mot. Garde le sens et le ton.");
    reveal_strlit("Ne traduis jamais les termes entre guillemets. Laisse-les tels quels.");
    reveal_strlit("Même un nom, un terme technique, une variable ou un nom de fonction entre guillemets reste inchangé.");
    reveal_strlit("Tu peux changer la structure de la phrase pour que ce soit naturel, sans changer le sens ni la personne.");
    reveal_strlit("S'il y a des jurons, de l'argot ou un ton familier, ne censure pas. Transmets-les naturellement.");
    reveal_strlit("Envoie seulement la traduction finale.");
    let h = template_cell(3, 0);
    assert(h.subrange(35, 43) =~= "{native}"@);
    assert(occurs_at(h, "{native}"@, 35));
    assert(h.subrange(62, 71) =~= "{foreign}"@);
    assert(occurs_at(h, "{foreign}"@, 62));
    let t1 = template_cell(3, 1);
    assert forall|k: int| 0 <= k < t1.len() implies t1[k] != '{' by {
        lemma_small_index(k);
    }
    lemma_absent(t1, "{native}"@, 0);
    lemma_absent(t1, "{foreign}"@, 0);
    let t2 = template_cell(3, 2);
    assert forall|k: int| 0 <= k < t2.len() implies t2[k] != '{' by {
        lemma_small_index(k);
    }
    lemma_absent(t2, "{native}"@, 0);
    lemma_absent(t2, "{foreign}"@, 0);
    let t3 = template_cell(3, 3);
    assert forall|k: int| 0 <= k < t3.len() implies t3[k] != '{' by {
        lemma_small_index(k);
    }
    lemma_absent(t3, "{native}"@, 0);
    lemma_absent(t3, "{foreign}"@, 0);
    let t4 = template_cell(3, 4);
    assert forall|k: int| 0 <= k < t4.len() implies t4[k] != '{' by {
        lemma_small_index(k);
    }
    lemma_absent(t4, "{native}"@, 0);
    lemma_absent(t4, "{foreign}"@, 0);
    let t5 = template_cell(3, 5);
    assert forall|k: int| 0 <= k < t5.len() implies t5[k] != '{' by {
        lemma_small_index(k);
    }
    lemma_absent(t5, "{native}"@, 0);
    lemma_absent(t5, "{foreign}"@, 0);
    let t6 = template_cell(3, 6);
    assert forall|k: int| 0 <= k < t6.len() implies t6[k] != '{' by {
        lemma_small_index(k);
    }
    lemma_absent(t6, "{native}"@, 0);
    lemma_absent(t6, "{foreign}"@, 0);
    let t7 = template_cell(3, 7);
    assert forall|k: int| 0 <= k < t7.len() implies t7[k] != '{' by {
        lemma_small_index(k);
    }
    lemma_absent(t7, "{native}"@, 0);
    lemma_absent(t7, "{foreign}"@, 0);
}

/// Rule templates of row 4: the first holds both language placeholders, the
/// others hold none.
proof fn lemma_template_row_4()
    ensures
        contains(template_cell(4, 0), "{native}"@),
        contains(template_cell(4, 0), "{foreign}"@),
        !contains(template_cell(4, 1), "{native}"@),
        !contains(template_cell(4, 1), "{foreign}"@),
        !contains(template_cell(4, 2), "{native}"@),
        !contains(template_cell(4, 2), "{foreign}"@),
        !contains(template_cell(4, 3), "{native}"@),
        !contains(template_cell(4, 3), "{foreign}"@),
        !contains(template_cell(4, 4), "{native}"@),
        !contains(template_cell(4, 4), "{foreign}"@),
        !contains(template_cell(4, 5), "{native}"@),
        !contains(template_cell(4, 5), "{foreign}"@),
        !contains(template_cell(4, 6), "{native}"@),
        !contains(template_cell(4, 6), "{foreign}"@),
        !contains(template_cell(4, 7), "{native}"@),
        !contains(template_cell(4, 7), "{foreign}"@),
{
    reveal_strlit("{native}");
    reveal_strlit("{foreign}");
    reveal_strlit("Idioma de destino: si el texto está en {native}, la salida es {foreign}. Si no está en {native}, la salida siempre es {native}. No traduzcas a ningún otro idioma.");
    reveal_strlit("Escribe solo la traducción. Sin explicaciones, notas ni alternativas.");
    reveal_strlit("La traducción debe sonar a habla cotidiana. No traduzcas palabra por palabra. Conserva el sentido y el tono.");
    reveal_strlit("No traduzcas nunca los términos entre comillas. Déjalos igual.");
    reveal_strlit("Aunque lo entrecomillado sea un nombre, un término técnico, una variable o una función, no lo cambies.");
    reveal_strlit("Puedes cambiar la estructura para que suene natural, sin cambiar el sentido ni la persona.");
    reveal_strlit("Si hay insultos, jerga o un tono cercano, no los censures. Pásalos con naturalidad.");
    reveal_strlit("Envía solo la traducción final.");
    let h = template_cell(4, 0);
    assert(h.subrange(39, 47) =~= "{native}"@);
    assert(occurs_at(h, "{native}"@, 39));
    assert(h.subrange(62, 71) =~= "{foreign}"@);
    assert(occurs_at(h, "{foreign}"@, 62));
    let t1 = template_cell(4, 1);
    assert forall|k: int| 0 <= k < t1.len() implies t1[k] != '{' by {
        lemma_small_index(k);
    }
    lemma_absent(t1, "{native}"@, 0);
    lemma_absent(t1, "{foreign}"@, 0);
    let t2 = template_cell(4, 2);
    assert forall|k: int| 0 <= k < t2.len() implies t2[k] != '{' by {
        lemma_small_index(k);
    }
    lemma_absent(t2, "{native}"@, 0);
    lemma_absent(t2, "{foreign}"@, 0);
    let t3 = template_cell(4, 3);
    assert forall|k: int| 0 <= k < t3.len() implies t3[k] != '{' by {
        lemma_small_index(k);
    }
    lemma_absent(t3, "{native}"@, 0);
    lemma_absent(t3, "{foreign}"@, 0);
    let t4 = template_cell(4, 4);
    assert forall|k: int| 0 <= k < t4.len() implies t4[k] != '{' by {
        lemma_small_index(k);
    }
    lemma_absent(t4, "{native}"@, 0);
    lemma_absent(t4, "{foreign}"@, 0);
    let t5 = template_cell(4, 5);
    assert forall|k: int| 0 <= k < t5.len() implies t5[k] != '{' by {
        lemma_small_index(k);
    }
    lemma_absent(t5, "{native}"@, 0);
    lemma_absent(t5, "{foreign}"@, 0);
    let t6 = template_cell(4, 6);
    assert forall|k: int| 0 <= k < t6.len() implies t6[k] != '{' by {
        lemma_small_index(k);
    }
    lemma_absent(t6, "{native}"@, 0);
    lemma_absent(t6, "{foreign}"@, 0);
    let t7 = template_cell(4, 7);
    assert forall|k: int| 0 <= k < t7.len() implies t7[k] != '{' by {
        lemma_small_index(k);
    }
    lemma_absent(t7, "{native}"@, 0);
    lemma_absent(t7, "{foreign}"@, 0);
}

/// Rule templates of row 5: the first holds both language placeholders, the
/// others hold none.
proof fn lemma_template_row_5()
    ensures
        contains(template_cell(5, 0), "{native}"@),
        contains(template_cell(5, 0), "{foreign}"@),
        !contains(template_cell(5, 1), "{native}"@),
        !contains(template_cell(5, 1), "{foreign}"@),
        !contains(template_cell(5, 2), "{native}"@),
        !contains(template_cell(5, 2), "{foreign}"@),
        !contains(template_cell(5, 3), "{native}"@),
        !contains(template_cell(5, 3), "{foreign}"@),
        !contains(template_cell(5, 4), "{native}"@),
        !contains(template_cell(5, 4), "{foreign}"@),
        !contains(template_cell(5, 5), "{native}"@),
        !contains(template_cell(5, 5), "{foreign}"@),
        !contains(template_cell(5, 6), "{native}"@),
        !contains(template_cell(5, 6), "{foreign}"@),
        !contains(template_cell(5, 7), "{native}"@),
        !contains(template_cell(5, 7), "{foreign}"@),
{
    reveal_strlit("{native}");
    reveal_strlit("{foreign}");
    reveal_strlit("Lingua di arrivo: se la fonte è {native}, l'uscita è {foreign}. Se la fonte non è {native}, l'uscita è sempre {native}. Non tradurre in nessun'altra lingua.");
    reveal_strlit("Scrivi solo la traduzione. Niente spiegazioni, note o alternative.");
    reveal_strlit("La traduzione deve suonare come il parlato di tutti i giorni. Non parola per parola. Tieni senso e tono.");
    reveal_strlit("Non tradurre mai i termini tra virgolette. Lasciali uguali.");
    reveal_strlit("Anche un nome, un termine tecnico, una variabile o una funzione tra virgolette resta invariato.");
    reveal_strlit("Puoi cambiare la struttura della frase perché suoni naturale, senza cambiare senso o persona.");
    reveal_strlit("Se ci sono parolacce, gergo o un tono informale, non censurare. Rendili in modo naturale.");
    reveal_strlit("Manda solo la traduzione finale.");
    let h = template_cell(5, 0);
    assert(h.subrange(32, 40) =~= "{native}"@);
    assert(occurs_at(h, "{native}"@, 32));
    assert(h.subrange(53, 62) =~= "{foreign}"@);
    assert(occurs_at(h, "{foreign}"@, 53));
    let t1 = template_cell(5, 1);
    assert forall|k: int| 0 <= k < t1.len() implies t1[k] != '{' by {
        lemma_small_index(k);
    }
    lemma_absent(t1, "{native}"@, 0);
    lemma_absent(t1, "{foreign}"@, 0);
    let t2 = template_cell(5, 2);
    assert forall|k: int| 0 <= k < t2.len() implies t2[k] != '{' by {
        lemma_small_index(k);
    }
    lemma_absent(t2, "{native}"@, 0);
    lemma_absent(t2, "{foreign}"@, 0);
    let t3 = template_cell(5, 3);
    assert forall|k: int| 0 <= k < t3.len() implies t3[k] != '{' by {
        lemma_small_index(k);
    }
    lemma_absent(t3, "{native}"@, 0);
    lemma_absent(t3, "{foreign}"@, 0);
    let t4 = template_cell(5, 4);
    assert forall|k: int| 0 <= k < t4.len() implies t4[k] != '{' by {
        lemma_small_index(k);
    }
    lemma_absent(t4, "{native}"@, 0);
    lemma_absent(t4, "{foreign}"@, 0);
    let t5 = template_cell(5, 5);
    assert forall|k: int| 0 <= k < t5.len() implies t5[k] != '{' by {
        lemma_small_index(k);
    }
    lemma_absent(t5, "{native}"@, 0);
    lemma_absent(t5, "{foreign}"@, 0);
    let t6 = template_cell(5, 6);
    assert forall|k: int| 0 <= k < t6.len() implies t6[k] != '{' by {
        lemma_small_index(k);
    }
    lemma_absent(t6, "{native}"@, 0);
    lemma_absent(t6, "{foreign}"@, 0);
    let t7 = template_cell(5, 7);
    assert forall|k: int| 0 <= k < t7.len() implies t7[k] != '{' by {
        lemma_small_index(k);
    }
    lemma_absent(t7, "{native}"@, 0);
    lemma_absent(t7, "{foreign}"@, 0);
}

/// Rule templates of row 6: the first holds both language placeholders, the
/// others hold none.
proof fn lemma_template_row_6()
    ensures
        contains(template_cell(6, 0), "{native}"@),
        contains(template_cell(6, 0), "{foreign}"@),
        !contains(template_cell(6, 1), "{native}"@),
        !contains(template_cell(6, 1), "{foreign}"@),
        !contains(template_cell(6, 2), "{native}"@),
        !contains(template_cell(6, 2), "{foreign}"@),
        !contains(template_cell(6, 3), "{native}"@),
        !contains(template_cell(6, 3), "{foreign}"@),
        !contains(template_cell(6, 4), "{native}"@),
        !contains(template_cell(6, 4), "{foreign}"@),
        !contains(template_cell(6, 5), "{native}"@),
        !contains(template_cell(6, 5), "{foreign}"@),
        !contains(template_cell(6, 6), "{native}"@),
        !contains(template_cell(6, 6), "{foreign}"@),
        !contains(template_cell(6, 7), "{native}"@),
        !contains(template_cell(6, 7), "{foreign}"@),
{
    reveal_strlit("{native}");
    reveal_strlit("{foreign}");
    reveal_strlit("Língua de destino: se a origem está em {native}, a saída é {foreign}. Se a origem não está em {native}, a saída é sempre {native}. Não traduzas para nenhuma outra língua.");
    reveal_strlit("Escreve só a tradução. Sem explicações, notas ou alternativas.");
    reveal_strlit("A tradução deve soar a fala do dia a dia. Não traduzas palavra a palavra. Mantém o sentido e o tom.");
    reveal_strlit("Nunca traduzas termos entre aspas. Deixa-os iguais.");
    reveal_strlit("Mesmo que o texto entre aspas seja um nome, um termo técnico, uma variável ou uma função, não o mudes.");
    reveal_strlit("Podes mudar a estrutura da frase para soar natural, sem mudar o sentido nem a pessoa.");
    reveal_strlit("Se houver palavrões, calão ou um tom informal, não censures. Passa-os com naturalidade.");
    reveal_strlit("Envia só a tradução final.");
    let h = template_cell(6, 0);
    assert(h.subrange(39, 47) =~= "{native}"@);
    assert(occurs_at(h, "{native}"@, 39));
    assert(h.subrange(59, 68) =~= "{foreign}"@);
    assert(occurs_at(h, "{foreign}"@, 59));
    let t1 = template_cell(6, 1);
    assert forall|k: int| 0 <= k < t1.len() implies t1[k] != '{' by {
        lemma_small_index(k);
    }
    lemma_absent(t1, "{native}"@, 0);
    lemma_absent(t1, "{foreign}"@, 0);
    let t2 = template_cell(6, 2);
    assert forall|k: int| 0 <= k < t2.len() implies t2[k] != '{' by {
        lemma_small_index(k);
    }
    lemma_absent(t2, "{native}"@, 0);
    lemma_absent(t2, "{foreign}"@, 0);
    let t3 = template_cell(6, 3);
    assert forall|k: int| 0 <= k < t3.len() implies t3[k] != '{' by {
        lemma_small_index(k);
    }
    lemma_absent(t3, "{native}"@, 0);
    lemma_absent(t3, "{foreign}"@, 0);
    let t4 = template_cell(6, 4);
    assert forall|k: int| 0 <= k < t4.len() implies t4[k] != '{' by {
        lemma_small_index(k);
    }
    lemma_absent(t4, "{native}"@, 0);
    lemma_absent(t4, "{foreign}"@, 0);
    let t5 = template_cell(6, 5);
    assert forall|k: int| 0 <= k < t5.len() implies t5[k] != '{' by {
        lemma_small_index(k);
    }
    lemma_absent(t5, "{native}"@, 0);
    lemma_absent(t5, "{foreign}"@, 0);
    let t6 = template_cell(6, 6);
    assert forall|k: int| 0 <= k < t6.len() implies t6[k] != '{' by {
        lemma_small_index(k);
    }
    lemma_absent(t6, "{native}"@, 0);
    lemma_absent(t6, "{foreign}"@, 0);
    let t7 = template_cell(6, 7);
    assert forall|k: int| 0 <= k < t7.len() implies t7[k] != '{' by {
        lemma_small_index(k);
    }
    lemma_absent(t7, "{native}"@, 0);
    lemma_absent(t7, "{foreign}"@, 0);
}

/// Rule templates of row 7: the first holds both language placeholders, the
/// others hold none.
proof fn lemma_template_row_7()
    ensures
        contains(template_cell(7, 0), "{native}"@),
        contains(template_cell(7, 0), "{foreign}"@),
        !contains(template_cell(7, 1), "{native}"@),
        !contains(template_cell(7, 1), "{foreign}"@),
        !contains(template_cell(7, 2), "{native}"@),
        !contains(template_cell(7, 2), "{foreign}"@),
        !contains(template_cell(7, 3), "{native}"@),
        !contains(template_cell(7, 3), "{foreign}"@),
        !contains(template_cell(7, 4), "{native}"@),
        !contains(template_cell(7, 4), "{foreign}"@),
        !contains(template_cell(7, 5), "{native}"@),
        !contains(template_cell(7, 5), "{foreign}"@),
        !contains(template_cell(7, 6), "{native}"@),
        !contains(template_cell(7, 6), "{foreign}"@),
        !contains(template_cell(7, 7), "{native}"@),
        !contains(template_cell(7, 7), "{foreign}"@),
{
    reveal_strlit("{native}");
    reveal_strlit("{foreign}");
    reveal_strlit("Язык перевода: если исходный текст на языке «{native}», ответ на языке «{foreign}». Если исходный текст не на языке «{native}», ответ всегда на языке «{native}». Не переводи ни на какой другой язык.");
    reveal_strlit("Пиши только перевод. Без пояснений, заметок и вариантов.");
    reveal_strlit("Перевод должен звучать как обычная речь. Не переводи слово в слово. Сохраняй смысл и тон.");
    reveal_strlit("Термины в кавычках никогда не переводи. Оставляй как есть.");
    reveal_strlit("Даже имя, термин, переменная или название функции в кавычках остаются без изменений.");
    reveal_strlit("Можно менять строй фразы, чтобы звучало естественно, но не смысл и не лицо.");
    reveal_strlit("Мат, сленг и разговорный тон не цензурируй. Передавай естественно.");
    reveal_strlit("Пришли только готовый перевод.");
    let h = template_cell(7, 0);
    assert(h.subrange(45, 53) =~= "{native}"@);
    assert(occurs_at(h, "{native}"@, 45));
    assert(h.subrange(72, 81) =~= "{foreign}"@);
    assert(occurs_at(h, "{foreign}"@, 72));
    let t1 = template_cell(7, 1);
    assert forall|k: int| 0 <= k < t1.len() implies t1[k] != '{' by {
        lemma_small_index(k);
    }
    lemma_absent(t1, "{native}"@, 0);
    lemma_absent(t1, "{foreign}"@, 0);
    let t2 = template_cell(7, 2);
    assert forall|k: int| 0 <= k < t2.len() implies t2[k] != '{' by {
        lemma_small_index(k);
    }
    lemma_absent(t2, "{native}"@, 0);
    lemma_absent(t2, "{foreign}"@, 0);
    let t3 = template_cell(7, 3);
    assert forall|k: int| 0 <= k < t3.len() implies t3[k] != '{' by {
        lemma_small_index(k);
    }
    lemma_absent(t3, "{native}"@, 0);
    lemma_absent(t3, "{foreign}"@, 0);
    let t4 = template_cell(7, 4);
    assert forall|k: int| 0 <= k < t4.len() implies t4[k] != '{' by {
        lemma_small_index(k);
    }
    lemma_absent(t4, "{native}"@, 0);
    lemma_absent(t4, "{foreign}"@, 0);
    let t5 = template_cell(7, 5);
    assert forall|k: int| 0 <= k < t5.len() implies t5[k] != '{' by {
        lemma_small_index(k);
    }
    lemma_absent(t5, "{native}"@, 0);
    lemma_absent(t5, "{foreign}"@, 0);
    let t6 = template_cell(7, 6);
    assert forall|k: int| 0 <= k < t6.len() implies t6[k] != '{' by {
        lemma_small_index(k);
    }
    lemma_absent(t6, "{native}"@, 0);
    lemma_absent(t6, "{foreign}"@, 0);
    let t7 = template_cell(7, 7);
    assert forall|k: int| 0 <= k < t7.len() implies t7[k] != '{' by {
        lemma_small_index(k);
    }
    lemma_absent(t7, "{native}"@, 0);
    lemma_absent(t7, "{foreign}"@, 0);
}

/// Rule templates of row 8: the first holds both language placeholders, the
/// others hold none.
proof fn lemma_template_row_8()
    ensures
        contains(template_cell(8, 0), "{native}"@),
        contains(template_cell(8, 0), "{foreign}"@),
        !contains(template_cell(8, 1), "{native}"@),
        !contains(template_cell(8, 1), "{foreign}"@),
        !contains(template_cell(8, 2), "{native}"@),
        !contains(template_cell(8, 2), "{foreign}"@),
        !contains(template_cell(8, 3), "{native}"@),
        !contains(template_cell(8, 3), "{foreign}"@),
        !contains(template_cell(8, 4), "{native}"@),
        !contains(template_cell(8, 4), "{foreign}"@),
        !contains(template_cell(8, 5), "{native}"@),
        !contains(template_cell(8, 5), "{foreign}"@),
        !contains(template_cell(8, 6), "{native}"@),
        !contains(template_cell(8, 6), "{foreign}"@),
        !contains(template_cell(8, 7), "{native}"@),
        !contains(template_cell(8, 7), "{foreign}"@),
{
    reveal_strlit("{native}");
    reveal_strlit("{foreign}");
    reveal_strlit("لغة الهدف: إذا كان المصدر بـ{native} فالناتج بـ{foreign}. إذا لم يكن المصدر بـ{native} فالناتج دائمًا بـ{native}. لا تترجم إلى أي لغة أخرى.");
    reveal_strlit("اكتب الترجمة فقط. بلا شرح أو ملاحظة أو بديل.");
    reveal_strlit("لتكن الترجمة كلامًا يوميًا طبيعيًا. لا تترجم كلمة بكلمة. حافظ على المعنى والأسلوب.");
    reveal_strlit("لا تترجم أبدًا ما بين علامتي التنصيص. اتركه كما هو.");
    reveal_strlit("حتى لو كان ما بين التنصيص اسمًا أو مصطلحًا أو متغيرًا أو اسم ميزة، لا تغيّره.");
    reveal_strlit("يمكنك تغيير تركيب الجملة ليبدو طبيعيًا، دون تغيير المعنى أو الضمير.");
    reveal_strlit("إذا وُجد سباب أو عامية أو حديث حميمي فلا تراقبه. انقله بطبيعته إلى اللغة الهدف.");
    reveal_strlit("أرسل الترجمة النهائية فقط.");
    let h = template_cell(8, 0);
    assert(h.subrange(28, 36) =~= "{native}"@);
    assert(occurs_at(h, "{native}"@, 28));
    assert(h.subrange(47, 56) =~= "{foreign}"@);
    assert(occurs_at(h, "{foreign}"@, 47));
    let t1 = template_cell(8, 1);
    assert forall|k: int| 0 <= k < t1.len() implies t1[k] != '{' by {
        lemma_small_index(k);
    }
    lemma_absent(t1, "{native}"@, 0);
    lemma_absent(t1, "{foreign}"@, 0);
    let t2 = template_cell(8, 2);
    assert forall|k: int| 0 <= k < t2.len() implies t2[k] != '{' by {
        lemma_small_index(k);
    }
    lemma_absent(t2, "{native}"@, 0);
    lemma_absent(t2, "{foreign}"@, 0);
    let t3 = template_cell(8, 3);
    assert forall|k: int| 0 <= k < t3.len() implies t3[k] != '{' by {
        lemma_small_index(k);
    }
    lemma_absent(t3, "{native}"@, 0);
    lemma_absent(t3, "{foreign}"@, 0);
    let t4 = template_cell(8, 4);
    assert forall|k: int| 0 <= k < t4.len() implies t4[k] != '{' by {
        lemma_small_index(k);
    }
    lemma_absent(t4, "{native}"@, 0);
    lemma_absent(t4, "{foreign}"@, 0);
    let t5 = template_cell(8, 5);
    assert forall|k: int| 0 <= k < t5.len() implies t5[k] != '{' by {
        lemma_small_index(k);
    }
    lemma_absent(t5, "{native}"@, 0);
    lemma_absent(t5, "{foreign}"@, 0);
    let t6 = template_cell(8, 6);
    assert forall|k: int| 0 <= k < t6.len() implies t6[k] != '{' by {
        lemma_small_index(k);
    }
    lemma_absent(t6, "{native}"@, 0);
    lemma_absent(t6, "{foreign}"@, 0);
    let t7 = template_cell(8, 7);
    assert forall|k: int| 0 <= k < t7.len() implies t7[k] != '{' by {
        lemma_small_index(k);
    }
    lemma_absent(t7, "{native}"@, 0);
    lemma_absent(t7, "{foreign}"@, 0);
}

/// Rule templates of row 9: the first holds both language placeholders, the
/// others hold none.
proof fn lemma_template_row_9()
    ensures
        contains(template_cell(9, 0), "{native}"@),
        contains(template_cell(9, 0), "{foreign}"@),
        !contains(template_cell(9, 1), "{native}"@),
        !contains(template_cell(9, 1), "{foreign}"@),
        !contains(template_cell(9, 2), "{native}"@),
        !contains(template_cell(9, 2), "{foreign}"@),
        !contains(template_cell(9, 3), "{native}"@),
        !contains(template_cell(9, 3), "{foreign}"@),
        !contains(template_cell(9, 4), "{native}"@),
        !contains(template_cell(9, 4), "{foreign}"@),
        !contains(template_cell(9, 5), "{native}"@),
        !contains(template_cell(9, 5), "{foreign}"@),
        !contains(template_cell(9, 6), "{native}"@),
        !contains(template_cell(9, 6), "{foreign}"@),
        !contains(template_cell(9, 7), "{native}"@),
        !contains(template_cell(9, 7), "{foreign}"@),
{
    reveal_strlit("{native}");
    reveal_strlit("{foreign}");
    reveal_strlit("訳し先: 原文が{native}なら出力は{foreign}。原文が{native}でなければ出力は常に{native}。それ以外の言語には訳さない。");
    reveal_strlit("翻訳だけを書く。説明、注、別案は入れない。");
    reveal_strlit("日常の話し言葉にする。一語一語の機械訳にしない。意味と口調は保つ。");
    reveal_strlit("引用符の中の語は絶対に訳さない。そのまま残す。");
    reveal_strlit("引用符の中が固有名詞、専門用語、変数名、機能名でも変えない。");
    reveal_strlit("自然にするために文の形は変えてよい。意味と人称は変えない。");
    reveal_strlit("罵り、俗語、くだけた言い方は伏せない。訳し先で自然に伝える。");
    reveal_strlit("最終的な翻訳だけを返す。");
    let h = template_cell(9, 0);
    assert(h.subrange(8, 16) =~= "{native}"@);
    assert(occurs_at(h, "{native}"@, 8));
    assert(h.subrange(21, 30) =~= "{foreign}"@);
    assert(occurs_at(h, "{foreign}"@, 21));
    let t1 = template_cell(9, 1);
    assert forall|k: int| 0 <= k < t1.len() implies t1[k] != '{' by {
        lemma_small_index(k);
    }
    lemma_absent(t1, "{native}"@, 0);
    lemma_absent(t1, "{foreign}"@, 0);
    let t2 = template_cell(9, 2);
    assert forall|k: int| 0 <= k < t2.len() implies t2[k] != '{' by {
        lemma_small_index(k);
    }
    lemma_absent(t2, "{native}"@, 0);
    lemma_absent(t2, "{foreign}"@, 0);
    let t3 = template_cell(9, 3);
    assert forall|k: int| 0 <= k < t3.len() implies t3[k] != '{' by {
        lemma_small_index(k);
    }
    lemma_absent(t3, "{native}"@, 0);
    lemma_absent(t3, "{foreign}"@, 0);
    let t4 = template_cell(9, 4);
    assert forall|k: int| 0 <= k < t4.len() implies t4[k] != '{' by {
        lemma_small_index(k);
    }
    lemma_absent(t4, "{native}"@, 0);
    lemma_absent(t4, "{foreign}"@, 0);
    let t5 = template_cell(9, 5);
    assert forall|k: int| 0 <= k < t5.len() implies t5[k] != '{' by {
        lemma_small_index(k);
    }
    lemma_absent(t5, "{native}"@, 0);
    lemma_absent(t5, "{foreign}"@, 0);
    let t6 = template_cell(9, 6);
    assert forall|k: int| 0 <= k < t6.len() implies t6[k] != '{' by {
        lemma_small_index(k);
    }
    lemma_absent(t6, "{native}"@, 0);
    lemma_absent(t6, "{foreign}"@, 0);
    let t7 = template_cell(9, 7);
    assert forall|k: int| 0 <= k < t7.len() implies t7[k] != '{' by {
        lemma_small_index(k);
    }
    lemma_absent(t7, "{native}"@, 0);
    lemma_absent(t7, "{foreign}"@, 0);
}

/// Rule templates of row 10: the first holds both language placeholders, the
/// others hold none.
proof fn lemma_template_row_10()
    ensures
        contains(template_cell(10, 0), "{native}"@),
        contains(template_cell(10, 0), "{foreign}"@),
        !contains(template_cell(10, 1), "{native}"@),
        !contains(template_cell(10, 1), "{foreign}"@),
        !contains(template_cell(10, 2), "{native}"@),
        !contains(template_cell(10, 2), "{foreign}"@),
        !contains(template_cell(10, 3), "{native}"@),
        !contains(template_cell(10, 3), "{foreign}"@),
        !contains(template_cell(10, 4), "{native}"@),
        !contains(template_cell(10, 4), "{foreign}"@),
        !contains(template_cell(10, 5), "{native}"@),
        !contains(template_cell(10, 5), "{foreign}"@),
        !contains(template_cell(10, 6), "{native}"@),
        !contains(template_cell(10, 6), "{foreign}"@),
        !contains(template_cell(10, 7), "{native}"@),
        !contains(template_cell(10, 7), "{foreign}"@),
{
    reveal_strlit("{native}");
    reveal_strlit("{foreign}");
    reveal_strlit("目标语言：原文是{native}时，输出为{foreign}。原文不是{native}时，输出始终为{native}。不要译成任何其他语言。");
    reveal_strlit("只写译文。不要解释、注释或另一种译法。");
    reveal_strlit("译文要像日常说话。不要逐字硬译。保留意思和口气。");
    reveal_strlit("引号里的词一律不译，原样保留。");
    reveal_strlit("引号里即使是名字、术语、变量名或功能名，也不要改。");
    reveal_strlit("为了自然可以调整句式，但不要改意思和人称。");
    reveal_strlit("有脏话、俚语或随便的说法时不要删掉，用目标语言自然地说出来。");
    reveal_strlit("只发送最终译文。");
    let h = template_cell(10, 0);
    assert(h.subrange(8, 16) =~= "{native}"@);
    assert(occurs_at(h, "{native}"@, 8));
    assert(h.subrange(21, 30) =~= "{foreign}"@);
    assert(occurs_at(h, "{foreign}"@, 21));
    let t1 = template_cell(10, 1);
    assert forall|k: int| 0 <= k < t1.len() implies t1[k] != '{' by {
        lemma_small_index(k);
    }
    lemma_absent(t1, "{native}"@, 0);
    lemma_absent(t1, "{foreign}"@, 0);
    let t2 = template_cell(10, 2);
    assert forall|k: int| 0 <= k < t2.len() implies t2[k] != '{' by {
        lemma_small_index(k);
    }
    lemma_absent(t2, "{native}"@, 0);
    lemma_absent(t2, "{foreign}"@, 0);
    let t3 = template_cell(10, 3);
    assert forall|k: int| 0 <= k < t3.len() implies t3[k] != '{' by {
        lemma_small_index(k);
    }
    lemma_absent(t3, "{native}"@, 0);
    lemma_absent(t3, "{foreign}"@, 0);
    let t4 = template_cell(10, 4);
    assert forall|k: int| 0 <= k < t4.len() implies t4[k] != '{' by {
        lemma_small_index(k);
    }
    lemma_absent(t4, "{native}"@, 0);
    lemma_absent(t4, "{foreign}"@, 0);
    let t5 = template_cell(10, 5);
    assert forall|k: int| 0 <= k < t5.len() implies t5[k] != '{' by {
        lemma_small_index(k);
    }
    lemma_absent(t5, "{native}"@, 0);
    lemma_absent(t5, "{foreign}"@, 0);
    let t6 = template_cell(10, 6);
    assert forall|k: int| 0 <= k < t6.len() implies t6[k] != '{' by {
        lemma_small_index(k);
    }
    lemma_absent(t6, "{native}"@, 0);
    lemma_absent(t6, "{foreign}"@, 0);
    let t7 = template_cell(10, 7);
    assert forall|k: int| 0 <= k < t7.len() implies t7[k] != '{' by {
        lemma_small_index(k);
    }
    lemma_absent(t7, "{native}"@, 0);
    lemma_absent(t7, "{foreign}"@, 0);
}

/// Rule templates of row 11: the first holds both language placeholders, the
/// others hold none.
proof fn lemma_template_row_11()
    ensures
        contains(template_cell(11, 0), "{native}"@),
        contains(template_cell(11, 0), "{foreign}"@),
        !contains(template_cell(11, 1), "{native}"@),
        !contains(template_cell(11, 1), "{foreign}"@),
        !contains(template_cell(11, 2), "{native}"@),
        !contains(template_cell(11, 2), "{foreign}"@),
        !contains(template_cell(11, 3), "{native}"@),
        !contains(template_cell(11, 3), "{foreign}"@),
        !contains(template_cell(11, 4), "{native}"@),
        !contains(template_cell(11, 4), "{foreign}"@),
        !contains(template_cell(11, 5), "{native}"@),
        !contains(template_cell(11, 5), "{foreign}"@),
        !contains(template_cell(11, 6), "{native}"@),
        !contains(template_cell(11, 6), "{foreign}"@),
        !contains(template_cell(11, 7), "{native}"@),
        !contains(template_cell(11, 7), "{foreign}"@),
{
    reveal_strlit("{native}");
    reveal_strlit("{foreign}");
    reveal_strlit("목표 언어: 원문이 {native}이면 결과는 {foreign}이다. 원문이 {native}가 아니면 결과는 항상 {native}이다. 다른 언어로는 번역하지 않는다.");
    reveal_strlit("번역만 쓴다. 설명, 주석, 다른 번역은 넣지 않는다.");
    reveal_strlit("일상 말투로 옮긴다. 단어를 하나씩 기계적으로 옮기지 않는다. 뜻과 말투는 유지한다.");
    reveal_strlit("따옴표 안의 말은 절대 번역하지 않는다. 그대로 둔다.");
    reveal_strlit("따옴표 안이 이름, 용어, 변수, 기능 이름이어도 바꾸지 않는다.");
    reveal_strlit("자연스럽게 하려고 문장 구조는 바꿔도 된다. 뜻과 인칭은 바꾸지 않는다.");
    reveal_strlit("욕, 속어, 편한 말투가 있으면 지우지 말고 목표 언어로 자연스럽게 옮긴다.");
    reveal_strlit("최종 번역만 보낸다.");
    let h = template_cell(11, 0);
    assert(h.subrange(11, 19) =~= "{native}"@);
    assert(occurs_at(h, "{native}"@, 11));
    assert(h.subrange(26, 35) =~= "{foreign}"@);
    assert(occurs_at(h, "{foreign}"@, 26));
    let t1 = template_cell(11, 1);
    assert forall|k: int| 0 <= k < t1.len() implies t1[k] != '{' by {
        lemma_small_index(k);
    }
    lemma_absent(t1, "{native}"@, 0);
    lemma_absent(t1, "{foreign}"@, 0);
    let t2 = template_cell(11, 2);
    assert forall|k: int| 0 <= k < t2.len() implies t2[k] != '{' by {
        lemma_small_index(k);
    }
    lemma_absent(t2, "{native}"@, 0);
    lemma_absent(t2, "{foreign}"@, 0);
    let t3 = template_cell(11, 3);
    assert forall|k: int| 0 <= k < t3.len() implies t3[k] != '{' by {
        lemma_small_index(k);
    }
    lemma_absent(t3, "{native}"@, 0);
    lemma_absent(t3, "{foreign}"@, 0);
    let t4 = template_cell(11, 4);
    assert forall|k: int| 0 <= k < t4.len() implies t4[k] != '{' by {
        lemma_small_index(k);
    }
    lemma_absent(t4, "{native}"@, 0);
    lemma_absent(t4, "{foreign}"@, 0);
    let t5 = template_cell(11, 5);
    assert forall|k: int| 0 <= k < t5.len() implies t5[k] != '{' by {
        lemma_small_index(k);
    }
    lemma_absent(t5, "{native}"@, 0);
    lemma_absent(t5, "{foreign}"@, 0);
    let t6 = template_cell(11, 6);
    assert forall|k: int| 0 <= k < t6.len() implies t6[k] != '{' by {
        lemma_small_index(k);
    }
    lemma_absent(t6, "{native}"@, 0);
    lemma_absent(t6, "{foreign}"@, 0);
    let t7 = template_cell(11, 7);
    assert forall|k: int| 0 <= k < t7.len() implies t7[k] != '{' by {
        lemma_small_index(k);
    }
    lemma_absent(t7, "{native}"@, 0);
    lemma_absent(t7, "{foreign}"@, 0);
}

/// The person rule mentions they/them exactly when English is one of the two
/// languages, in every interface language; an unsupported interface
/// language gets the English rule.
pub proof fn lemma_person_rule_they_them(ui: Seq<char>, english_person: bool)
    ensures
        contains(spec_person_rule(ui, english_person), "they/them"@) == english_person,
        !spec_is_lang(ui) ==> spec_person_rule(ui, english_person) == spec_person_rule("en"@, english_person),
{
    let row = ui_row(ui) as int;
    if row == 0 {
        lemma_person_row_0();
    }
    if row == 1 {
        lemma_person_row_1();
    }
    if row == 2 {
        lemma_person_row_2();
    }
    if row == 3 {
        lemma_person_row_3();
    }
    if row == 4 {
        lemma_person_row_4();
    }
    if row == 5 {
        lemma_person_row_5();
    }
    if row == 6 {
        lemma_person_row_6();
    }
    if row == 7 {
        lemma_person_row_7();
    }
    if row == 8 {
        lemma_person_row_8();
    }
    if row == 9 {
        lemma_person_row_9();
    }
    if row == 10 {
        lemma_person_row_10();
    }
    if row == 11 {
        lemma_person_row_11();
    }
    reveal_strlit("en");
    reveal_strlit("tr");
    assert("en"@[0] != "tr"@[0]);
    assert(lang_index("en"@) == 1);
}

/// The built-in rules of every interface language: nine rules, the first a
/// target-language rule holding both language placeholders, the fourth the
/// person rule, and no other rule holding a placeholder.
pub proof fn lemma_rule_templates_shape(ui: Seq<char>, english_person: bool)
    ensures
        ({
            let r = spec_rule_templates(ui, english_person);
            &&& r.len() == 9
            &&& r[3] == spec_person_rule(ui, english_person)
            &&& spec_is_target_rule(r[0])
            &&& contains(r[0], "{native}"@)
            &&& contains(r[0], "{foreign}"@)
            &&& forall|i: int| 1 <= i < 9 ==> !contains(#[trigger] r[i], "{native}"@) && !contains(r[i], "{foreign}"@)
        }),
{
    let row = ui_row(ui) as int;
    if row == 0 {
        lemma_template_row_0();
    }
    if row == 1 {
        lemma_template_row_1();
    }
    if row == 2 {
        lemma_template_row_2();
    }
    if row == 3 {
        lemma_template_row_3();
    }
    if row == 4 {
        lemma_template_row_4();
    }
    if row == 5 {
        lemma_template_row_5();
    }
    if row == 6 {
        lemma_template_row_6();
    }
    if row == 7 {
        lemma_template_row_7();
    }
    if row == 8 {
        lemma_template_row_8();
    }
    if row == 9 {
        lemma_template_row_9();
    }
    if row == 10 {
        lemma_template_row_10();
    }
    if row == 11 {
        lemma_template_row_11();
    }
    if row == 0 {
        lemma_person_row_0();
    }
    if row == 1 {
        lemma_person_row_1();
    }
    if row == 2 {
        lemma_person_row_2();
    }
    if row == 3 {
        lemma_person_row_3();
    }
    if row == 4 {
        lemma_person_row_4();
    }
    if row == 5 {
        lemma_person_row_5();
    }
    if row == 6 {
        lemma_person_row_6();
    }
    if row == 7 {
        lemma_person_row_7();
    }
    if row == 8 {
        lemma_person_row_8();
    }
    if row == 9 {
        lemma_person_row_9();
    }
    if row == 10 {
        lemma_person_row_10();
    }
    if row == 11 {
        lemma_person_row_11();
    }
    let r = spec_rule_templates(ui, english_person);
    let t = template_cell(row, 0);
    let p = target_prefix(row);
    let k = p.len() as int;
    lemma_target_template(row);
    assert(t[0] == p[0]) by {
        assert(t.take(k)[0] == t[0]);
    }
    assert(t[k - 1] == p[k - 1]) by {
        assert(t.take(k)[k - 1] == t[k - 1]);
    }
    lemma_trim_keeps_prefix(t, k);
    assert(starts_with(trim(t), p));
    assert(r[0] == t);
    assert forall|i: int| 1 <= i < 9 implies !contains(#[trigger] r[i], "{native}"@) && !contains(r[i], "{foreign}"@) by {
        if i == 3 {
            assert(r[3] == person_cell(row, if english_person { 1 } else { 0 }));
        } else if i < 3 {
            assert(r[i] == template_cell(row, i));
        } else {
            assert(r[i] == template_cell(row, i - 1));
        }
    }
}

} // verus!
