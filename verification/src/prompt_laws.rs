//! Properties that span several functions: the first built-in rule is
//! always recognised as a target-language rule, so saving the rules the
//! settings page shows leaves the rules in force unchanged; numbered rules
//! joined into one prompt split back into the same rules; and preferences
//! as they are saved load back unchanged.
use vstd::prelude::*;
use crate::prefs::{Prefs, prefs_wf, spec_normalized, spec_repaired, takes_legacy_prompt};
use crate::hotkey::hotkey_error;
use crate::prompts::{digit_run, flush, legacy_fold, legacy_step, lines_from, numbered_line, spec_join_rules, spec_numbered_body, spec_split_legacy_prompt, split_lines, clean_rule, cleaned, fill, spec_active_rules, spec_clean_rules, spec_default_rules, spec_is_target_rule, spec_rule_templates, spec_without_target_rule, take_at_most, template_cell, spec_apply_language_tokens, spec_user_message};
use crate::lang::ui_row;
use crate::text::{clipped, dec_digits, digit_char, is_blank, is_ws, replace, starts_with, trim, trim_end, trim_start, views};

verus! {

/// The label that starts the target-language rule of the interface language
/// of `row`.
pub open spec fn target_prefix(row: int) -> Seq<char> {
    if row == 0 {
        "Hedef dil:"@
    } else if row == 1 {
        "Target language:"@
    } else if row == 2 {
        "Zielsprache:"@
    } else if row == 3 {
        "Langue cible"@
    } else if row == 4 {
        "Idioma de destino:"@
    } else if row == 5 {
        "Lingua di arrivo:"@
    } else if row == 6 {
        "Língua de destino:"@
    } else if row == 7 {
        "Язык перевода:"@
    } else if row == 8 {
        "لغة الهدف:"@
    } else if row == 9 {
        "訳し先:"@
    } else if row == 10 {
        "目标语言："@
    } else {
        "목표 언어:"@
    }
}

/// `s` does not contain `c`.
pub open spec fn free_of(s: Seq<char>, c: char) -> bool
    decreases s.len(),
{
    s.len() == 0 || (s[0] != c && free_of(s.drop_first(), c))
}

/// Replacing a pattern leaves alone a prefix in which the pattern's first
/// character does not occur.
pub proof fn lemma_replace_keeps_prefix(s: Seq<char>, pat: Seq<char>, rep: Seq<char>, k: int)
    requires
        pat.len() > 0,
        0 <= k <= s.len(),
        free_of(s.take(k), pat[0]),
    ensures
        replace(s, pat, rep).len() >= k,
        replace(s, pat, rep).take(k) == s.take(k),
    decreases k,
{
    if k > 0 {
        assert(s.take(k)[0] == s[0]);
        assert(s[0] != pat[0]);
        if s.len() < pat.len() {
        } else {
            assert(s.take(pat.len() as int)[0] != pat[0]);
            assert(s.take(pat.len() as int) != pat);
            assert(s.take(k).drop_first() =~= s.drop_first().take(k - 1));
            lemma_replace_keeps_prefix(s.drop_first(), pat, rep, k - 1);
            let r = replace(s.drop_first(), pat, rep);
            assert(replace(s, pat, rep) == seq![s[0]] + r);
            assert forall|i: int| 0 <= i < k implies #[trigger] (seq![s[0]] + r).take(k)[i] == s.take(
                k,
            )[i] by {
                if i > 0 {
                    assert(r.take(k - 1)[i - 1] == r[i - 1]);
                    assert(s.drop_first().take(k - 1)[i - 1] == s[i]);
                }
            }
            assert((seq![s[0]] + r).take(k) =~= s.take(k));
        }
    } else {
        assert(replace(s, pat, rep).take(0) =~= s.take(0));
    }
}

/// Trimming keeps a prefix that starts and ends with characters that are
/// not whitespace.
pub proof fn lemma_trim_keeps_prefix(x: Seq<char>, k: int)
    requires
        0 < k <= x.len(),
        !is_ws(x[0]),
        !is_ws(x[k - 1]),
    ensures
        trim(x).len() >= k,
        trim(x).take(k) == x.take(k),
{
    assert(trim_start(x) == x);
    lemma_trim_end_keeps_prefix(x, k);
}

/// Trimming the end keeps a prefix that ends in a non-space character.
pub proof fn lemma_trim_end_keeps_prefix(x: Seq<char>, k: int)
    requires
        0 < k <= x.len(),
        !is_ws(x[k - 1]),
    ensures
        trim_end(x).len() >= k,
        trim_end(x).take(k) == x.take(k),
    decreases x.len(),
{
    if is_ws(x.last()) {
        assert(x.len() > k);
        assert(x.drop_last()[k - 1] == x[k - 1]);
        lemma_trim_end_keeps_prefix(x.drop_last(), k);
        assert(x.drop_last().take(k) =~= x.take(k));
    }
}

/// The target-language template of each interface language starts with
/// its label, which holds no `{` and begins and ends with a character that
/// is not whitespace.
pub proof fn lemma_target_template(row: int)
    requires
        0 <= row < 12,
    ensures
        ({
            let t = template_cell(row, 0);
            let p = target_prefix(row);
            &&& 0 < p.len() <= t.len()
            &&& t.take(p.len() as int) == p
            &&& free_of(p, '{')
            &&& !is_ws(p[0])
            &&& !is_ws(p[p.len() - 1])
        }),
{
    reveal_with_fuel(free_of, 20);
    if row == 0 {
        reveal_strlit("Hedef dil: Kaynak {native} ise çıktı {foreign} olur. Kaynak {native} değilse çıktı her zaman {native} olur. Başka hiçbir dile çevirme.");
        reveal_strlit("Hedef dil:");
        assert(template_cell(0, 0).take("Hedef dil:"@.len() as int) =~= "Hedef dil:"@);
    } else if row == 1 {
        reveal_strlit("Target language: if the source is {native}, the output is {foreign}. If the source is not {native}, the output is always {native}. Do not translate into any other language.");
        reveal_strlit("Target language:");
        assert(template_cell(1, 0).take("Target language:"@.len() as int) =~= "Target language:"@);
    } else if row == 2 {
        reveal_strlit("Zielsprache: Ist die Quelle {native}, ist die Ausgabe {foreign}. Ist die Quelle nicht {native}, ist die Ausgabe immer {native}. Übersetze in keine andere Sprache.");
        reveal_strlit("Zielsprache:");
        assert(template_cell(2, 0).take("Zielsprache:"@.len() as int) =~= "Zielsprache:"@);
    } else if row == 3 {
        reveal_strlit("Langue cible : si la source est en {native}, la sortie est en {foreign}. Si la source n'est pas en {native}, la sortie est toujours en {native}. Ne traduis vers aucune autre langue.");
        reveal_strlit("Langue cible");
        assert(template_cell(3, 0).take("Langue cible"@.len() as int) =~= "Langue cible"@);
    } else if row == 4 {
        reveal_strlit("Idioma de destino: si el texto está en {native}, la salida es {foreign}. Si no está en {native}, la salida siempre es {native}. No traduzcas a ningún otro idioma.");
        reveal_strlit("Idioma de destino:");
        assert(template_cell(4, 0).take("Idioma de destino:"@.len() as int) =~= "Idioma de destino:"@);
    } else if row == 5 {
        reveal_strlit("Lingua di arrivo: se la fonte è {native}, l'uscita è {foreign}. Se la fonte non è {native}, l'uscita è sempre {native}. Non tradurre in nessun'altra lingua.");
        reveal_strlit("Lingua di arrivo:");
        assert(template_cell(5, 0).take("Lingua di arrivo:"@.len() as int) =~= "Lingua di arrivo:"@);
    } else if row == 6 {
        reveal_strlit("Língua de destino: se a origem está em {native}, a saída é {foreign}. Se a origem não está em {native}, a saída é sempre {native}. Não traduzas para nenhuma outra língua.");
        reveal_strlit("Língua de destino:");
        assert(template_cell(6, 0).take("Língua de destino:"@.len() as int) =~= "Língua de destino:"@);
    } else if row == 7 {
        reveal_strlit("Язык перевода: если исходный текст на языке «{native}», ответ на языке «{foreign}». Если исходный текст не на языке «{native}», ответ всегда на языке «{native}». Не переводи ни на какой другой язык.");
        reveal_strlit("Язык перевода:");
        assert(template_cell(7, 0).take("Язык перевода:"@.len() as int) =~= "Язык перевода:"@);
    } else if row == 8 {
        reveal_strlit("لغة الهدف: إذا كان المصدر بـ{native} فالناتج بـ{foreign}. إذا لم يكن المصدر بـ{native} فالناتج دائمًا بـ{native}. لا تترجم إلى أي لغة أخرى.");
        reveal_strlit("لغة الهدف:");
        assert(template_cell(8, 0).take("لغة الهدف:"@.len() as int) =~= "لغة الهدف:"@);
    } else if row == 9 {
        reveal_strlit("訳し先: 原文が{native}なら出力は{foreign}。原文が{native}でなければ出力は常に{native}。それ以外の言語には訳さない。");
        reveal_strlit("訳し先:");
        assert(template_cell(9, 0).take("訳し先:"@.len() as int) =~= "訳し先:"@);
    } else if row == 10 {
        reveal_strlit("目标语言：原文是{native}时，输出为{foreign}。原文不是{native}时，输出始终为{native}。不要译成任何其他语言。");
        reveal_strlit("目标语言：");
        assert(template_cell(10, 0).take("目标语言："@.len() as int) =~= "目标语言："@);
    } else {
        reveal_strlit("목표 언어: 원문이 {native}이면 결과는 {foreign}이다. 원문이 {native}가 아니면 결과는 항상 {native}이다. 다른 언어로는 번역하지 않는다.");
        reveal_strlit("목표 언어:");
        assert(template_cell(11, 0).take("목표 언어:"@.len() as int) =~= "목표 언어:"@);
    }

}

/// The first built-in rule, with any languages filled in, is recognised as
/// a target-language rule, for every interface language.
pub proof fn lemma_default_head_is_target(ui: Seq<char>, native_code: Seq<char>, foreign_code: Seq<char>)
    ensures
        spec_default_rules(ui, native_code, foreign_code).len() == 9,
        spec_is_target_rule(spec_default_rules(ui, native_code, foreign_code)[0]),
{
    let row = ui_row(ui) as int;
    lemma_target_template(row);
    let t = template_cell(row, 0);
    let p = target_prefix(row);
    let k = p.len() as int;
    let d = spec_default_rules(ui, native_code, foreign_code);
    let native = crate::lang::spec_localized_name(native_code, ui);
    let foreign = crate::lang::spec_localized_name(foreign_code, ui);
    assert(spec_rule_templates(ui, native_code == "en"@ || foreign_code == "en"@)[0] == t);
    assert(d[0] == fill(t, native, foreign));
    reveal_strlit("{native}");
    reveal_strlit("{foreign}");
    assert(t.take(k) == p);
    let r1 = replace(t, "{native}"@, native);
    lemma_replace_keeps_prefix(t, "{native}"@, native, k);
    assert(r1.take(k) == p);
    lemma_replace_keeps_prefix(r1, "{foreign}"@, foreign, k);
    let r2 = replace(r1, "{foreign}"@, foreign);
    assert(r2.take(k) == p);
    assert(r2[0] == p[0]) by {
        assert(r2.take(k)[0] == r2[0]);
    }
    assert(r2[k - 1] == p[k - 1]) by {
        assert(r2.take(k)[k - 1] == r2[k - 1]);
    }
    lemma_trim_keeps_prefix(r2, k);
    assert(trim(r2).take(k) == p);
    assert(starts_with(trim(r2), p));
}

/// Rules that cleaning leaves as they are.
pub open spec fn already_clean(rules: Seq<Seq<char>>) -> bool {
    forall|i: int| 0 <= i < rules.len() ==> clean_rule(#[trigger] rules[i]) == rules[i] && rules[i].len() > 0
}

/// Cleaning rules that are already clean changes nothing.
pub proof fn lemma_cleaned_fixed(rules: Seq<Seq<char>>)
    requires
        already_clean(rules),
    ensures
        cleaned(rules) == rules,
    decreases rules.len(),
{
    if rules.len() > 0 {
        assert(already_clean(rules.drop_last())) by {
            assert forall|i: int| 0 <= i < rules.drop_last().len() implies clean_rule(
                #[trigger] rules.drop_last()[i],
            ) == rules.drop_last()[i] && rules.drop_last()[i].len() > 0 by {
                assert(rules.drop_last()[i] == rules[i]);
            }
        }
        lemma_cleaned_fixed(rules.drop_last());
        assert(clean_rule(rules.last()) == rules.last());
        assert(rules.drop_last().push(rules.last()) =~= rules);
    }
}

/// Saving the rules the settings page shows, as the user's own rules,
/// leaves the rules in force unchanged, provided there are at most 80 of
/// them and cleaning does not alter them.
pub proof fn lemma_saving_shown_rules_keeps_them(p: Prefs, q: Prefs)
    requires
        q.ui_language@ == p.ui_language@,
        q.native_language@ == p.native_language@,
        q.foreign_language@ == p.foreign_language@,
        q.rules_customized,
        views(q.prompt_rules@) == spec_clean_rules(spec_active_rules(p)),
        spec_active_rules(p).len() <= 80,
        already_clean(spec_active_rules(p)),
    ensures
        spec_active_rules(q) == spec_active_rules(p),
{
    let r = spec_active_rules(p);
    lemma_cleaned_fixed(r);
    assert(spec_clean_rules(r) == r);
    assert(views(q.prompt_rules@) == r);
    assert(spec_clean_rules(views(q.prompt_rules@)) == r);
    lemma_default_head_is_target(p.ui_language@, p.native_language@, p.foreign_language@);
    let d = spec_default_rules(p.ui_language@, p.native_language@, p.foreign_language@);
    assert(r[0] == d[0]);
    assert(spec_without_target_rule(r) == r.drop_first());
    assert(seq![d[0]] + r.drop_first() =~= r);
}

/// No line break in `s`.
pub open spec fn one_line(s: Seq<char>) -> bool {
    forall|j: int| 0 <= j < s.len() ==> #[trigger] s[j] != '\n'
}

/// A piece with no line break at the front of the text joins the line being read.
pub proof fn lemma_lines_one_line(x: Seq<char>, rest: Seq<char>, cur: Seq<char>)
    requires
        one_line(x),
    ensures
        lines_from(x + rest, cur) == lines_from(rest, cur + x),
    decreases x.len(),
{
    if x.len() == 0 {
        assert(x + rest =~= rest);
        assert(cur + x =~= cur);
    } else {
        assert((x + rest)[0] == x[0]);
        assert((x + rest).drop_first() =~= x.drop_first() + rest);
        assert(one_line(x.drop_first())) by {
            assert forall|j: int| 0 <= j < x.drop_first().len() implies #[trigger] x.drop_first()[j]
                != '\n' by {
                assert(x.drop_first()[j] == x[j + 1]);
            }
        }
        lemma_lines_one_line(x.drop_first(), rest, cur.push(x[0]));
        assert(cur.push(x[0]) + x.drop_first() =~= cur + x);
    }
}

/// Adding a line break and a last line adds that line.
pub proof fn lemma_lines_append(x: Seq<char>, y: Seq<char>, cur: Seq<char>)
    requires
        cur.len() + x.len() > 0,
        x.len() > 0 ==> x.last() != '\n',
        y.len() > 0,
        one_line(y),
    ensures
        lines_from(x + "\n"@ + y, cur) == lines_from(x, cur).push(y),
    decreases x.len(),
{
    reveal_strlit("\n");
    if x.len() == 0 {
        assert(x + "\n"@ + y =~= seq!['\n'] + y);
        assert((seq!['\n'] + y).drop_first() =~= y);
        lemma_lines_one_line(y, Seq::empty(), Seq::empty());
        assert(y + Seq::<char>::empty() =~= y);
        assert(Seq::<char>::empty() + y =~= y);
        assert(lines_from(Seq::<char>::empty(), y) == seq![y]);
        assert(seq![cur] + seq![y] =~= seq![cur].push(y));
    } else {
        let z = x + "\n"@ + y;
        assert(z[0] == x[0]);
        assert(z.drop_first() =~= x.drop_first() + "\n"@ + y);
        if x[0] == '\n' {
            assert(x.len() >= 2);
            lemma_lines_append(x.drop_first(), y, Seq::empty());
            assert(seq![cur] + lines_from(x.drop_first(), Seq::empty()).push(y) =~= (seq![cur]
                + lines_from(x.drop_first(), Seq::empty())).push(y));
        } else {
            lemma_lines_append(x.drop_first(), y, cur.push(x[0]));
        }
    }
}

/// A decimal representation is made of ASCII digits only.
pub proof fn lemma_dec_digits_are_digits(n: nat)
    ensures
        dec_digits(n).len() > 0,
        forall|j: int| 0 <= j < dec_digits(n).len() ==> '0' <= #[trigger] dec_digits(n)[j] <= '9',
    decreases n,
{
    if n >= 10 {
        lemma_dec_digits_are_digits(n / 10);
        let d = dec_digits(n / 10);
        assert forall|j: int| 0 <= j < d.push(digit_char(n % 10)).len() implies '0' <= #[trigger] d.push(
            digit_char(n % 10),
        )[j] <= '9' by {
            if j < d.len() {
                assert(d.push(digit_char(n % 10))[j] == d[j]);
            }
        }
    }
}

/// A rule as it is written in the numbered format.
pub open spec fn plain_rule(r: Seq<char>) -> bool {
    &&& r.len() > 0
    &&& trim(r) == r
    &&& one_line(r)
}

/// The shape of a numbered rule line: digits, a dot, a space, the rule.
pub proof fn lemma_numbered_line_shape(i: int, r: Seq<char>)
    requires
        0 <= i,
        plain_rule(r),
    ensures
        ({
            let l = numbered_line(i, r);
            &&& l.len() > 0
            &&& one_line(l)
            &&& l.last() != '\n'
            &&& trim(l) == l
            &&& spec_numbered_body(l) == Some(r)
        }),
{
    reveal_strlit(". ");
    let d = dec_digits((i + 1) as nat);
    lemma_dec_digits_are_digits((i + 1) as nat);
    let l = numbered_line(i, r);
    assert(l == d + ". "@ + r);
    let k = d.len() as int;
    assert(l[k] == '.');
    assert(l[k + 1] == ' ');
    assert forall|j: int| 0 <= j < l.len() implies #[trigger] l[j] != '\n' by {
        if j < k {
            assert(l[j] == d[j]);
        } else if j >= k + 2 {
            assert(l[j] == r[j - k - 2]);
        }
    }
    assert(l.last() == r.last());
    assert(trim(r).len() > 0);
    assert(!is_ws(r.last())) by {
        lemma_trim_end_last(trim_start(r));
    }
    assert(!is_ws(l[0])) by {
        assert(l[0] == d[0]);
    }
    lemma_trim_keeps_prefix(l, l.len() as int);
    assert(l.take(l.len() as int) =~= l);
    assert(trim(l).take(l.len() as int) =~= trim(l)) by {
        lemma_trim_not_longer(l);
    }
    crate::prompts::lemma_digit_run_skip(l, k);
    assert(l.skip(k)[0] == '.');
    assert(digit_run(l.skip(k)) == 0);
    assert(l.skip(k + 1) =~= seq![' '] + r);
    lemma_trim_space_then(r);
}

/// Trimming never makes a text longer.
pub proof fn lemma_trim_not_longer(s: Seq<char>)
    ensures
        trim(s).len() <= s.len(),
{
    lemma_trim_start_not_longer(s);
    lemma_trim_end_not_longer(trim_start(s));
}

/// Trimming the start never makes a text longer.
pub proof fn lemma_trim_start_not_longer(s: Seq<char>)
    ensures
        trim_start(s).len() <= s.len(),
    decreases s.len(),
{
    if s.len() > 0 && is_ws(s[0]) {
        lemma_trim_start_not_longer(s.drop_first());
    }
}

/// Trimming the end never makes a text longer.
pub proof fn lemma_trim_end_not_longer(s: Seq<char>)
    ensures
        trim_end(s).len() <= s.len(),
    decreases s.len(),
{
    if s.len() > 0 && is_ws(s.last()) {
        lemma_trim_end_not_longer(s.drop_last());
    }
}

/// A text trimmed at the end ends in a non-space character, when it is not empty.
pub proof fn lemma_trim_end_last(t: Seq<char>)
    ensures
        trim_end(t).len() > 0 ==> !is_ws(trim_end(t).last()),
    decreases t.len(),
{
    if t.len() > 0 && is_ws(t.last()) {
        lemma_trim_end_last(t.drop_last());
    }
}

/// A space put before a plain rule is trimmed away again.
pub proof fn lemma_trim_space_then(r: Seq<char>)
    requires
        plain_rule(r),
    ensures
        trim(seq![' '] + r) == r,
{
    let s = seq![' '] + r;
    assert(s.drop_first() =~= r);
    assert(is_ws(s[0]));
    assert(trim_start(s) == trim_start(r));
}

/// The rules read back from numbered lines are the rules written.
pub proof fn lemma_fold_numbered(rules: Seq<Seq<char>>)
    requires
        rules.len() > 0,
        forall|i: int| 0 <= i < rules.len() ==> plain_rule(#[trigger] rules[i]),
    ensures
        legacy_fold(Seq::new(rules.len(), |i: int| numbered_line(i, rules[i]))) == (
            rules.drop_last(),
            Some(rules.last()),
        ),
    decreases rules.len(),
{
    let n = rules.len() as int;
    let lines = Seq::new(rules.len(), |i: int| numbered_line(i, rules[i]));
    lemma_numbered_line_shape(n - 1, rules[n - 1]);
    if n == 1 {
        assert(lines.drop_last() =~= Seq::<Seq<char>>::empty());
        assert(rules.drop_last() =~= Seq::<Seq<char>>::empty());
    } else {
        let prev = rules.drop_last();
        assert forall|i: int| 0 <= i < prev.len() implies plain_rule(#[trigger] prev[i]) by {
            assert(prev[i] == rules[i]);
        }
        lemma_fold_numbered(prev);
        assert(lines.drop_last() =~= Seq::new(prev.len(), |i: int| numbered_line(i, prev[i])));
        let last_prev = prev.last();
        assert(trim(last_prev) == last_prev);
        assert(flush(prev.drop_last(), Some(last_prev)) =~= prev);
    }
    assert(lines.last() == numbered_line(n - 1, rules[n - 1]));
    let l = lines.last();
    assert(trim(l) == l);
    assert(spec_numbered_body(trim(l)) == Some(rules[n - 1]));
    assert(legacy_fold(lines) == legacy_step(legacy_fold(lines.drop_last()), l));
}

/// Rules written in the numbered format (`1. rule`, one per line) are read
/// back unchanged from an old free-text prompt, when each is non-empty,
/// trimmed and on one line.
pub proof fn lemma_split_reads_joined_rules(rules: Seq<Seq<char>>)
    requires
        rules.len() > 0,
        forall|i: int| 0 <= i < rules.len() ==> plain_rule(#[trigger] rules[i]),
    ensures
        spec_split_legacy_prompt(spec_join_rules(rules)) == rules,
{
    lemma_lines_of_join(rules);
    lemma_fold_numbered(rules);
    let n = rules.len() as int;
    lemma_numbered_line_shape(n - 1, rules[n - 1]);
    assert(trim(rules.last()) == rules.last());
    assert(rules.drop_last().push(rules.last()) =~= rules);
}

/// The lines of joined rules are the numbered rule lines.
pub proof fn lemma_lines_of_join(rules: Seq<Seq<char>>)
    requires
        rules.len() > 0,
        forall|i: int| 0 <= i < rules.len() ==> plain_rule(#[trigger] rules[i]),
    ensures
        split_lines(spec_join_rules(rules)) == Seq::new(rules.len(), |i: int| numbered_line(i, rules[i])),
        spec_join_rules(rules).len() > 0,
        spec_join_rules(rules).last() != '\n',
    decreases rules.len(),
{
    let n = rules.len() as int;
    lemma_numbered_line_shape(n - 1, rules[n - 1]);
    let l = numbered_line(n - 1, rules[n - 1]);
    let want = Seq::new(rules.len(), |i: int| numbered_line(i, rules[i]));
    if n == 1 {
        lemma_lines_one_line(l, Seq::empty(), Seq::empty());
        assert(l + Seq::<char>::empty() =~= l);
        assert(Seq::<char>::empty() + l =~= l);
        assert(want =~= seq![l]);
    } else {
        let prev = rules.drop_last();
        assert forall|i: int| 0 <= i < prev.len() implies plain_rule(#[trigger] prev[i]) by {
            assert(prev[i] == rules[i]);
        }
        lemma_lines_of_join(prev);
        let x = spec_join_rules(prev);
        assert(spec_join_rules(rules) == x + "\n"@ + l);
        lemma_lines_append(x, l, Seq::empty());
        assert(want =~= Seq::new(prev.len(), |i: int| numbered_line(i, prev[i])).push(l));
        assert((x + "\n"@ + l).last() == l.last());
    }
}


/// Preferences as the settings page saves them load back unchanged: when
/// they are well formed, their rules are already clean and no old free-text
/// prompt is waiting to become rules, normalising them changes nothing.
pub proof fn lemma_saved_prefs_load_unchanged(p: Prefs, q: Prefs)
    requires
        prefs_wf(p),
        already_clean(views(p.prompt_rules@)),
        !takes_legacy_prompt(p),
        spec_normalized(p, q),
    ensures
        q.close_to_tray == p.close_to_tray,
        q.start_minimized == p.start_minimized,
        q.hotkey == p.hotkey,
        q.fallback_models == p.fallback_models,
        q.ui_language@ == p.ui_language@,
        q.native_language@ == p.native_language@,
        q.foreign_language@ == p.foreign_language@,
        q.timeout_secs == p.timeout_secs,
        q.max_output_tokens == p.max_output_tokens,
        q.rules_customized == p.rules_customized,
        views(q.prompt_rules@) == views(p.prompt_rules@),
        q.custom_prompt@ == p.custom_prompt@,
{
    let r = views(p.prompt_rules@);
    lemma_cleaned_fixed(r);
    assert(spec_clean_rules(r) == r);
    assert(clipped(p.custom_prompt@, 12000) == p.custom_prompt@);
}

/// The same holds of preferences read back from disk with a valid
/// shortcut: repairing them changes nothing.
pub proof fn lemma_saved_prefs_repair_unchanged(p: Prefs, q: Prefs)
    requires
        prefs_wf(p),
        hotkey_error(p.hotkey) is None,
        already_clean(views(p.prompt_rules@)),
        !takes_legacy_prompt(p),
        spec_repaired(p, q),
    ensures
        q.close_to_tray == p.close_to_tray,
        q.start_minimized == p.start_minimized,
        q.hotkey == p.hotkey,
        q.fallback_models == p.fallback_models,
        q.ui_language@ == p.ui_language@,
        q.native_language@ == p.native_language@,
        q.foreign_language@ == p.foreign_language@,
        q.timeout_secs == p.timeout_secs,
        q.max_output_tokens == p.max_output_tokens,
        q.rules_customized == p.rules_customized,
        views(q.prompt_rules@) == views(p.prompt_rules@),
        q.custom_prompt@ == p.custom_prompt@,
{
    assert(Prefs { hotkey: p.hotkey, ..p } == p);
    lemma_saved_prefs_load_unchanged(p, q);
}


/// Joined rules start with the first rule's numbered line.
pub proof fn lemma_join_starts_with_first(rules: Seq<Seq<char>>)
    requires
        rules.len() > 0,
    ensures
        starts_with(spec_join_rules(rules), numbered_line(0, rules[0])),
    decreases rules.len(),
{
    if rules.len() > 1 {
        let d = rules.drop_last();
        lemma_join_starts_with_first(d);
        assert(d[0] == rules[0]);
        let j = spec_join_rules(d);
        let l = numbered_line(0, rules[0]);
        let all = j + "\n"@ + numbered_line(rules.len() - 1, rules.last());
        assert(all == spec_join_rules(rules));
        assert(all.take(l.len() as int) =~= j.take(l.len() as int));
    } else {
        let l = numbered_line(0, rules[0]);
        assert(spec_join_rules(rules) == l);
        assert(l.take(l.len() as int) =~= l);
    }
}

/// The system prompt depends on the preferences alone (not on the text
/// translated), and always starts with the first rule's number, `1. `.
pub proof fn lemma_system_prompt_starts_numbered(p: Prefs)
    ensures
        starts_with(spec_apply_language_tokens(spec_join_rules(spec_active_rules(p)), p), "1. "@),
{
    let rules = spec_active_rules(p);
    assert(rules.len() > 0);
    lemma_join_starts_with_first(rules);
    let j = spec_join_rules(rules);
    let l = numbered_line(0, rules[0]);
    reveal_strlit("1. ");
    reveal_strlit(". ");
    reveal_strlit("{native}");
    reveal_strlit("{foreign}");
    assert(dec_digits(1) == seq![digit_char(1)]);
    assert(digit_char(1) == '1');
    assert(l.take(3) =~= "1. "@);
    assert(j.take(3) =~= l.take(l.len() as int).take(3));
    assert(j.take(3) =~= "1. "@);
    assert(free_of(j.take(3), '{')) by {
        reveal_with_fuel(free_of, 4);
        assert(j.take(3).drop_first() =~= seq!['.', ' ']);
        assert(j.take(3).drop_first().drop_first() =~= seq![' ']);
        assert(j.take(3).drop_first().drop_first().drop_first() =~= Seq::<char>::empty());
    }
    let native = crate::lang::spec_localized_name(p.native_language@, p.ui_language@);
    let foreign = crate::lang::spec_localized_name(p.foreign_language@, p.ui_language@);
    lemma_replace_keeps_prefix(j, "{native}"@, native, 3);
    let a = replace(j, "{native}"@, native);
    assert(a.take(3) == j.take(3));
    lemma_replace_keeps_prefix(a, "{foreign}"@, foreign, 3);
    let b = replace(a, "{foreign}"@, foreign);
    assert(b.take(3) == a.take(3));
    assert(b == spec_apply_language_tokens(j, p));
}



/// The user message does not depend on the interface language: two sets of
/// preferences with the same native and foreign languages ask the same
/// thing. It names both languages in English: if the text is in the native
/// language, write the foreign one; otherwise write the native one; then
/// comes the text to translate.
pub proof fn lemma_user_message_names_languages(p: Prefs, q: Prefs, source: Seq<char>)
    ensures
        (p.native_language@ == q.native_language@ && p.foreign_language@ == q.foreign_language@)
            ==> spec_user_message(p, source) == spec_user_message(q, source),
        ({
            let n = crate::lang::spec_localized_name(p.native_language@, "en"@);
            let f = crate::lang::spec_localized_name(p.foreign_language@, "en"@);
            spec_user_message(p, source) == "Translate. If the source is "@ + n + ", write "@ + f
                + ". If the source is not "@ + n + ", write "@ + n
                + ". Keep person (you/I/he). Output only the translation.\n\n"@ + source
        }),
        ({
            let m = spec_user_message(p, source);
            &&& m.len() >= source.len()
            &&& m.skip(m.len() - source.len()) == source
        }),
{
    crate::lang::lemma_language_name_is_english_name(p.native_language@);
    crate::lang::lemma_language_name_is_english_name(p.foreign_language@);
    let m = spec_user_message(p, source);
    let native = crate::lang::spec_language_name(p.native_language@);
    let foreign = crate::lang::spec_language_name(p.foreign_language@);
    let head = "Translate. If the source is "@ + native + ", write "@ + foreign;
    let rest = ". If the source is not "@ + native + ", write "@ + native
        + ". Keep person (you/I/he). Output only the translation.\n\n"@;
    assert(m =~= head + rest + source);
    assert(m.skip(m.len() - source.len()) =~= source);
}

} // verus!
