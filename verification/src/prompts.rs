//! The translation instructions: the built-in rules in each interface
//! language, the user's own rules, and the prompts sent to the model.
use vstd::prelude::*;
use crate::lang::{is_lang, language_name, localized_name, spec_is_lang, spec_language_name, spec_localized_name, ui_row, language_index};
use crate::prefs::Prefs;
use crate::text::{opt_view, clip, clipped, copy_strings, dec_digits, decimal, is_ws, lower_seq, owned, push_char, replace, replace_str, starts_with, starts_with_str, str_eq, string_from, trim, trim_bounds, trim_str, views, chars_of, is_blank, is_blank_str, lemma_blank_iff_trim_empty};

verus! {

/// Rule `slot` of the built-in rules in the interface language of `row`:
/// 0 target language, 1 only the translation, 2 natural speech, 3 quoted
/// terms, 4 kinds of quoted terms, 5 sentence structure, 6 slang, 7 final
/// answer only.
pub open spec fn template_cell(row: int, slot: int) -> Seq<char> {
    if row == 0 {
        if slot == 0 {
            "Hedef dil: Kaynak {native} ise çıktı {foreign} olur. Kaynak {native} değilse çıktı her zaman {native} olur. Başka hiçbir dile çevirme."@
        } else if slot == 1 {
            "Sadece çeviriyi yaz. Açıklama, yorum, not, alternatif çeviri veya gereksiz hiçbir şey ekleme."@
        } else if slot == 2 {
            "Çeviri gündelik, doğal ve sade insan konuşması gibi olsun. Kelimesi kelimesine mekanik çeviri yapma; anlamı ve konuşma tarzını koru."@
        } else if slot == 3 {
            "Çeviri içinde tırnak içine alınmış terimleri ASLA çevirme. Aynı şekilde bırak."@
        } else if slot == 4 {
            "Tırnak içindeki ifade özel bir isim, teknik terim, değişken adı veya özellik adı olsa bile değiştirme."@
        } else if slot == 5 {
            "Çevirinin doğal olması için gerektiğinde cümle yapısını değiştirebilirsin, ancak anlamı ve şahsı değiştirme."@
        } else if slot == 6 {
            "Küfür, argo, günlük konuşma veya samimi ifadeler varsa bunları sansürleme; hedef dile doğal şekilde aktar."@
        } else {
            "Bana yalnızca nihai çeviriyi gönder."@
        }
    } else if row == 1 {
        if slot == 0 {
            "Target language: if the source is {native}, the output is {foreign}. If the source is not {native}, the output is always {native}. Do not translate into any other language."@
        } else if slot == 1 {
            "Write only the translation. Do not add an explanation, a note, or an alternative."@
        } else if slot == 2 {
            "Sound like everyday speech. Do not translate word for word. Keep the meaning and the tone."@
        } else if slot == 3 {
            "Never translate terms inside quotation marks. Leave them as they are."@
        } else if slot == 4 {
            "Even if the quoted text is a name, a technical term, a variable, or a feature name, leave it unchanged."@
        } else if slot == 5 {
            "You may change the sentence structure so it sounds natural, but do not change the meaning or the person."@
        } else if slot == 6 {
            "If there is swearing, slang, or casual talk, do not censor it. Carry it naturally into the target language."@
        } else {
            "Send only the final translation."@
        }
    } else if row == 2 {
        if slot == 0 {
            "Zielsprache: Ist die Quelle {native}, ist die Ausgabe {foreign}. Ist die Quelle nicht {native}, ist die Ausgabe immer {native}. Übersetze in keine andere Sprache."@
        } else if slot == 1 {
            "Schreib nur die Übersetzung. Keine Erklärung, keinen Kommentar, keine Alternative."@
        } else if slot == 2 {
            "Die Übersetzung soll wie alltägliche gesprochene Sprache klingen. Nicht Wort für Wort. Bedeutung und Ton bleiben."@
        } else if slot == 3 {
            "Begriffe in Anführungszeichen niemals übersetzen. Sie bleiben gleich."@
        } else if slot == 4 {
            "Auch Namen, Fachbegriffe, Variablen oder Funktionsnamen in Anführungszeichen bleiben unverändert."@
        } else if slot == 5 {
            "Du darfst den Satzbau ändern, damit es natürlich klingt, aber nicht die Bedeutung oder die Person."@
        } else if slot == 6 {
            "Flüche, Slang und lockere Rede nicht zensieren. Natürlich in die Zielsprache übertragen."@
        } else {
            "Schick nur die fertige Übersetzung."@
        }
    } else if row == 3 {
        if slot == 0 {
            "Langue cible : si la source est en {native}, la sortie est en {foreign}. Si la source n'est pas en {native}, la sortie est toujours en {native}. Ne traduis vers aucune autre langue."@
        } else if slot == 1 {
            "Écris seulement la traduction. Pas d'explication, de note ou d'alternative."@
        } else if slot == 2 {
            "La traduction doit sonner comme une parole quotidienne. Pas de mot à mot. Garde le sens et le ton."@
        } else if slot == 3 {
            "Ne traduis jamais les termes entre guillemets. Laisse-les tels quels."@
        } else if slot == 4 {
            "Même un nom, un terme technique, une variable ou un nom de fonction entre guillemets reste inchangé."@
        } else if slot == 5 {
            "Tu peux changer la structure de la phrase pour que ce soit naturel, sans changer le sens ni la personne."@
        } else if slot == 6 {
            "S'il y a des jurons, de l'argot ou un ton familier, ne censure pas. Transmets-les naturellement."@
        } else {
            "Envoie seulement la traduction finale."@
        }
    } else if row == 4 {
        if slot == 0 {
            "Idioma de destino: si el texto está en {native}, la salida es {foreign}. Si no está en {native}, la salida siempre es {native}. No traduzcas a ningún otro idioma."@
        } else if slot == 1 {
            "Escribe solo la traducción. Sin explicaciones, notas ni alternativas."@
        } else if slot == 2 {
            "La traducción debe sonar a habla cotidiana. No traduzcas palabra por palabra. Conserva el sentido y el tono."@
        } else if slot == 3 {
            "No traduzcas nunca los términos entre comillas. Déjalos igual."@
        } else if slot == 4 {
            "Aunque lo entrecomillado sea un nombre, un término técnico, una variable o una función, no lo cambies."@
        } else if slot == 5 {
            "Puedes cambiar la estructura para que suene natural, sin cambiar el sentido ni la persona."@
        } else if slot == 6 {
            "Si hay insultos, jerga o un tono cercano, no los censures. Pásalos con naturalidad."@
        } else {
            "Envía solo la traducción final."@
        }
    } else if row == 5 {
        if slot == 0 {
            "Lingua di arrivo: se la fonte è {native}, l'uscita è {foreign}. Se la fonte non è {native}, l'uscita è sempre {native}. Non tradurre in nessun'altra lingua."@
        } else if slot == 1 {
            "Scrivi solo la traduzione. Niente spiegazioni, note o alternative."@
        } else if slot == 2 {
            "La traduzione deve suonare come il parlato di tutti i giorni. Non parola per parola. Tieni senso e tono."@
        } else if slot == 3 {
            "Non tradurre mai i termini tra virgolette. Lasciali uguali."@
        } else if slot == 4 {
            "Anche un nome, un termine tecnico, una variabile o una funzione tra virgolette resta invariato."@
        } else if slot == 5 {
            "Puoi cambiare la struttura della frase perché suoni naturale, senza cambiare senso o persona."@
        } else if slot == 6 {
            "Se ci sono parolacce, gergo o un tono informale, non censurare. Rendili in modo naturale."@
        } else {
            "Manda solo la traduzione finale."@
        }
    } else if row == 6 {
        if slot == 0 {
            "Língua de destino: se a origem está em {native}, a saída é {foreign}. Se a origem não está em {native}, a saída é sempre {native}. Não traduzas para nenhuma outra língua."@
        } else if slot == 1 {
            "Escreve só a tradução. Sem explicações, notas ou alternativas."@
        } else if slot == 2 {
            "A tradução deve soar a fala do dia a dia. Não traduzas palavra a palavra. Mantém o sentido e o tom."@
        } else if slot == 3 {
            "Nunca traduzas termos entre aspas. Deixa-os iguais."@
        } else if slot == 4 {
            "Mesmo que o texto entre aspas seja um nome, um termo técnico, uma variável ou uma função, não o mudes."@
        } else if slot == 5 {
            "Podes mudar a estrutura da frase para soar natural, sem mudar o sentido nem a pessoa."@
        } else if slot == 6 {
            "Se houver palavrões, calão ou um tom informal, não censures. Passa-os com naturalidade."@
        } else {
            "Envia só a tradução final."@
        }
    } else if row == 7 {
        if slot == 0 {
            "Язык перевода: если исходный текст на языке «{native}», ответ на языке «{foreign}». Если исходный текст не на языке «{native}», ответ всегда на языке «{native}». Не переводи ни на какой другой язык."@
        } else if slot == 1 {
            "Пиши только перевод. Без пояснений, заметок и вариантов."@
        } else if slot == 2 {
            "Перевод должен звучать как обычная речь. Не переводи слово в слово. Сохраняй смысл и тон."@
        } else if slot == 3 {
            "Термины в кавычках никогда не переводи. Оставляй как есть."@
        } else if slot == 4 {
            "Даже имя, термин, переменная или название функции в кавычках остаются без изменений."@
        } else if slot == 5 {
            "Можно менять строй фразы, чтобы звучало естественно, но не смысл и не лицо."@
        } else if slot == 6 {
            "Мат, сленг и разговорный тон не цензурируй. Передавай естественно."@
        } else {
            "Пришли только готовый перевод."@
        }
    } else if row == 8 {
        if slot == 0 {
            "لغة الهدف: إذا كان المصدر بـ{native} فالناتج بـ{foreign}. إذا لم يكن المصدر بـ{native} فالناتج دائمًا بـ{native}. لا تترجم إلى أي لغة أخرى."@
        } else if slot == 1 {
            "اكتب الترجمة فقط. بلا شرح أو ملاحظة أو بديل."@
        } else if slot == 2 {
            "لتكن الترجمة كلامًا يوميًا طبيعيًا. لا تترجم كلمة بكلمة. حافظ على المعنى والأسلوب."@
        } else if slot == 3 {
            "لا تترجم أبدًا ما بين علامتي التنصيص. اتركه كما هو."@
        } else if slot == 4 {
            "حتى لو كان ما بين التنصيص اسمًا أو مصطلحًا أو متغيرًا أو اسم ميزة، لا تغيّره."@
        } else if slot == 5 {
            "يمكنك تغيير تركيب الجملة ليبدو طبيعيًا، دون تغيير المعنى أو الضمير."@
        } else if slot == 6 {
            "إذا وُجد سباب أو عامية أو حديث حميمي فلا تراقبه. انقله بطبيعته إلى اللغة الهدف."@
        } else {
            "أرسل الترجمة النهائية فقط."@
        }
    } else if row == 9 {
        if slot == 0 {
            "訳し先: 原文が{native}なら出力は{foreign}。原文が{native}でなければ出力は常に{native}。それ以外の言語には訳さない。"@
        } else if slot == 1 {
            "翻訳だけを書く。説明、注、別案は入れない。"@
        } else if slot == 2 {
            "日常の話し言葉にする。一語一語の機械訳にしない。意味と口調は保つ。"@
        } else if slot == 3 {
            "引用符の中の語は絶対に訳さない。そのまま残す。"@
        } else if slot == 4 {
            "引用符の中が固有名詞、専門用語、変数名、機能名でも変えない。"@
        } else if slot == 5 {
            "自然にするために文の形は変えてよい。意味と人称は変えない。"@
        } else if slot == 6 {
            "罵り、俗語、くだけた言い方は伏せない。訳し先で自然に伝える。"@
        } else {
            "最終的な翻訳だけを返す。"@
        }
    } else if row == 10 {
        if slot == 0 {
            "目标语言：原文是{native}时，输出为{foreign}。原文不是{native}时，输出始终为{native}。不要译成任何其他语言。"@
        } else if slot == 1 {
            "只写译文。不要解释、注释或另一种译法。"@
        } else if slot == 2 {
            "译文要像日常说话。不要逐字硬译。保留意思和口气。"@
        } else if slot == 3 {
            "引号里的词一律不译，原样保留。"@
        } else if slot == 4 {
            "引号里即使是名字、术语、变量名或功能名，也不要改。"@
        } else if slot == 5 {
            "为了自然可以调整句式，但不要改意思和人称。"@
        } else if slot == 6 {
            "有脏话、俚语或随便的说法时不要删掉，用目标语言自然地说出来。"@
        } else {
            "只发送最终译文。"@
        }
    } else {
        if slot == 0 {
            "목표 언어: 원문이 {native}이면 결과는 {foreign}이다. 원문이 {native}가 아니면 결과는 항상 {native}이다. 다른 언어로는 번역하지 않는다."@
        } else if slot == 1 {
            "번역만 쓴다. 설명, 주석, 다른 번역은 넣지 않는다."@
        } else if slot == 2 {
            "일상 말투로 옮긴다. 단어를 하나씩 기계적으로 옮기지 않는다. 뜻과 말투는 유지한다."@
        } else if slot == 3 {
            "따옴표 안의 말은 절대 번역하지 않는다. 그대로 둔다."@
        } else if slot == 4 {
            "따옴표 안이 이름, 용어, 변수, 기능 이름이어도 바꾸지 않는다."@
        } else if slot == 5 {
            "자연스럽게 하려고 문장 구조는 바꿔도 된다. 뜻과 인칭은 바꾸지 않는다."@
        } else if slot == 6 {
            "욕, 속어, 편한 말투가 있으면 지우지 말고 목표 언어로 자연스럽게 옮긴다."@
        } else {
            "최종 번역만 보낸다."@
        }
    }
}

pub fn template_text(row: usize, slot: usize) -> (r: &'static str)
    requires
        row < 12,
        slot < 8,
    ensures
        r@ == template_cell(row as int, slot as int),
{
    if row == 0 {
        if slot == 0 {
            "Hedef dil: Kaynak {native} ise çıktı {foreign} olur. Kaynak {native} değilse çıktı her zaman {native} olur. Başka hiçbir dile çevirme."
        } else if slot == 1 {
            "Sadece çeviriyi yaz. Açıklama, yorum, not, alternatif çeviri veya gereksiz hiçbir şey ekleme."
        } else if slot == 2 {
            "Çeviri gündelik, doğal ve sade insan konuşması gibi olsun. Kelimesi kelimesine mekanik çeviri yapma; anlamı ve konuşma tarzını koru."
        } else if slot == 3 {
            "Çeviri içinde tırnak içine alınmış terimleri ASLA çevirme. Aynı şekilde bırak."
        } else if slot == 4 {
            "Tırnak içindeki ifade özel bir isim, teknik terim, değişken adı veya özellik adı olsa bile değiştirme."
        } else if slot == 5 {
            "Çevirinin doğal olması için gerektiğinde cümle yapısını değiştirebilirsin, ancak anlamı ve şahsı değiştirme."
        } else if slot == 6 {
            "Küfür, argo, günlük konuşma veya samimi ifadeler varsa bunları sansürleme; hedef dile doğal şekilde aktar."
        } else {
            "Bana yalnızca nihai çeviriyi gönder."
        }
    } else if row == 1 {
        if slot == 0 {
            "Target language: if the source is {native}, the output is {foreign}. If the source is not {native}, the output is always {native}. Do not translate into any other language."
        } else if slot == 1 {
            "Write only the translation. Do not add an explanation, a note, or an alternative."
        } else if slot == 2 {
            "Sound like everyday speech. Do not translate word for word. Keep the meaning and the tone."
        } else if slot == 3 {
            "Never translate terms inside quotation marks. Leave them as they are."
        } else if slot == 4 {
            "Even if the quoted text is a name, a technical term, a variable, or a feature name, leave it unchanged."
        } else if slot == 5 {
            "You may change the sentence structure so it sounds natural, but do not change the meaning or the person."
        } else if slot == 6 {
            "If there is swearing, slang, or casual talk, do not censor it. Carry it naturally into the target language."
        } else {
            "Send only the final translation."
        }
    } else if row == 2 {
        if slot == 0 {
            "Zielsprache: Ist die Quelle {native}, ist die Ausgabe {foreign}. Ist die Quelle nicht {native}, ist die Ausgabe immer {native}. Übersetze in keine andere Sprache."
        } else if slot == 1 {
            "Schreib nur die Übersetzung. Keine Erklärung, keinen Kommentar, keine Alternative."
        } else if slot == 2 {
            "Die Übersetzung soll wie alltägliche gesprochene Sprache klingen. Nicht Wort für Wort. Bedeutung und Ton bleiben."
        } else if slot == 3 {
            "Begriffe in Anführungszeichen niemals übersetzen. Sie bleiben gleich."
        } else if slot == 4 {
            "Auch Namen, Fachbegriffe, Variablen oder Funktionsnamen in Anführungszeichen bleiben unverändert."
        } else if slot == 5 {
            "Du darfst den Satzbau ändern, damit es natürlich klingt, aber nicht die Bedeutung oder die Person."
        } else if slot == 6 {
            "Flüche, Slang und lockere Rede nicht zensieren. Natürlich in die Zielsprache übertragen."
        } else {
            "Schick nur die fertige Übersetzung."
        }
    } else if row == 3 {
        if slot == 0 {
            "Langue cible : si la source est en {native}, la sortie est en {foreign}. Si la source n'est pas en {native}, la sortie est toujours en {native}. Ne traduis vers aucune autre langue."
        } else if slot == 1 {
            "Écris seulement la traduction. Pas d'explication, de note ou d'alternative."
        } else if slot == 2 {
            "La traduction doit sonner comme une parole quotidienne. Pas de mot à mot. Garde le sens et le ton."
        } else if slot == 3 {
            "Ne traduis jamais les termes entre guillemets. Laisse-les tels quels."
        } else if slot == 4 {
            "Même un nom, un terme technique, une variable ou un nom de fonction entre guillemets reste inchangé."
        } else if slot == 5 {
            "Tu peux changer la structure de la phrase pour que ce soit naturel, sans changer le sens ni la personne."
        } else if slot == 6 {
            "S'il y a des jurons, de l'argot ou un ton familier, ne censure pas. Transmets-les naturellement."
        } else {
            "Envoie seulement la traduction finale."
        }
    } else if row == 4 {
        if slot == 0 {
            "Idioma de destino: si el texto está en {native}, la salida es {foreign}. Si no está en {native}, la salida siempre es {native}. No traduzcas a ningún otro idioma."
        } else if slot == 1 {
            "Escribe solo la traducción. Sin explicaciones, notas ni alternativas."
        } else if slot == 2 {
            "La traducción debe sonar a habla cotidiana. No traduzcas palabra por palabra. Conserva el sentido y el tono."
        } else if slot == 3 {
            "No traduzcas nunca los términos entre comillas. Déjalos igual."
        } else if slot == 4 {
            "Aunque lo entrecomillado sea un nombre, un término técnico, una variable o una función, no lo cambies."
        } else if slot == 5 {
            "Puedes cambiar la estructura para que suene natural, sin cambiar el sentido ni la persona."
        } else if slot == 6 {
            "Si hay insultos, jerga o un tono cercano, no los censures. Pásalos con naturalidad."
        } else {
            "Envía solo la traducción final."
        }
    } else if row == 5 {
        if slot == 0 {
            "Lingua di arrivo: se la fonte è {native}, l'uscita è {foreign}. Se la fonte non è {native}, l'uscita è sempre {native}. Non tradurre in nessun'altra lingua."
        } else if slot == 1 {
            "Scrivi solo la traduzione. Niente spiegazioni, note o alternative."
        } else if slot == 2 {
            "La traduzione deve suonare come il parlato di tutti i giorni. Non parola per parola. Tieni senso e tono."
        } else if slot == 3 {
            "Non tradurre mai i termini tra virgolette. Lasciali uguali."
        } else if slot == 4 {
            "Anche un nome, un termine tecnico, una variabile o una funzione tra virgolette resta invariato."
        } else if slot == 5 {
            "Puoi cambiare la struttura della frase perché suoni naturale, senza cambiare senso o persona."
        } else if slot == 6 {
            "Se ci sono parolacce, gergo o un tono informale, non censurare. Rendili in modo naturale."
        } else {
            "Manda solo la traduzione finale."
        }
    } else if row == 6 {
        if slot == 0 {
            "Língua de destino: se a origem está em {native}, a saída é {foreign}. Se a origem não está em {native}, a saída é sempre {native}. Não traduzas para nenhuma outra língua."
        } else if slot == 1 {
            "Escreve só a tradução. Sem explicações, notas ou alternativas."
        } else if slot == 2 {
            "A tradução deve soar a fala do dia a dia. Não traduzas palavra a palavra. Mantém o sentido e o tom."
        } else if slot == 3 {
            "Nunca traduzas termos entre aspas. Deixa-os iguais."
        } else if slot == 4 {
            "Mesmo que o texto entre aspas seja um nome, um termo técnico, uma variável ou uma função, não o mudes."
        } else if slot == 5 {
            "Podes mudar a estrutura da frase para soar natural, sem mudar o sentido nem a pessoa."
        } else if slot == 6 {
            "Se houver palavrões, calão ou um tom informal, não censures. Passa-os com naturalidade."
        } else {
            "Envia só a tradução final."
        }
    } else if row == 7 {
        if slot == 0 {
            "Язык перевода: если исходный текст на языке «{native}», ответ на языке «{foreign}». Если исходный текст не на языке «{native}», ответ всегда на языке «{native}». Не переводи ни на какой другой язык."
        } else if slot == 1 {
            "Пиши только перевод. Без пояснений, заметок и вариантов."
        } else if slot == 2 {
            "Перевод должен звучать как обычная речь. Не переводи слово в слово. Сохраняй смысл и тон."
        } else if slot == 3 {
            "Термины в кавычках никогда не переводи. Оставляй как есть."
        } else if slot == 4 {
            "Даже имя, термин, переменная или название функции в кавычках остаются без изменений."
        } else if slot == 5 {
            "Можно менять строй фразы, чтобы звучало естественно, но не смысл и не лицо."
        } else if slot == 6 {
            "Мат, сленг и разговорный тон не цензурируй. Передавай естественно."
        } else {
            "Пришли только готовый перевод."
        }
    } else if row == 8 {
        if slot == 0 {
            "لغة الهدف: إذا كان المصدر بـ{native} فالناتج بـ{foreign}. إذا لم يكن المصدر بـ{native} فالناتج دائمًا بـ{native}. لا تترجم إلى أي لغة أخرى."
        } else if slot == 1 {
            "اكتب الترجمة فقط. بلا شرح أو ملاحظة أو بديل."
        } else if slot == 2 {
            "لتكن الترجمة كلامًا يوميًا طبيعيًا. لا تترجم كلمة بكلمة. حافظ على المعنى والأسلوب."
        } else if slot == 3 {
            "لا تترجم أبدًا ما بين علامتي التنصيص. اتركه كما هو."
        } else if slot == 4 {
            "حتى لو كان ما بين التنصيص اسمًا أو مصطلحًا أو متغيرًا أو اسم ميزة، لا تغيّره."
        } else if slot == 5 {
            "يمكنك تغيير تركيب الجملة ليبدو طبيعيًا، دون تغيير المعنى أو الضمير."
        } else if slot == 6 {
            "إذا وُجد سباب أو عامية أو حديث حميمي فلا تراقبه. انقله بطبيعته إلى اللغة الهدف."
        } else {
            "أرسل الترجمة النهائية فقط."
        }
    } else if row == 9 {
        if slot == 0 {
            "訳し先: 原文が{native}なら出力は{foreign}。原文が{native}でなければ出力は常に{native}。それ以外の言語には訳さない。"
        } else if slot == 1 {
            "翻訳だけを書く。説明、注、別案は入れない。"
        } else if slot == 2 {
            "日常の話し言葉にする。一語一語の機械訳にしない。意味と口調は保つ。"
        } else if slot == 3 {
            "引用符の中の語は絶対に訳さない。そのまま残す。"
        } else if slot == 4 {
            "引用符の中が固有名詞、専門用語、変数名、機能名でも変えない。"
        } else if slot == 5 {
            "自然にするために文の形は変えてよい。意味と人称は変えない。"
        } else if slot == 6 {
            "罵り、俗語、くだけた言い方は伏せない。訳し先で自然に伝える。"
        } else {
            "最終的な翻訳だけを返す。"
        }
    } else if row == 10 {
        if slot == 0 {
            "目标语言：原文是{native}时，输出为{foreign}。原文不是{native}时，输出始终为{native}。不要译成任何其他语言。"
        } else if slot == 1 {
            "只写译文。不要解释、注释或另一种译法。"
        } else if slot == 2 {
            "译文要像日常说话。不要逐字硬译。保留意思和口气。"
        } else if slot == 3 {
            "引号里的词一律不译，原样保留。"
        } else if slot == 4 {
            "引号里即使是名字、术语、变量名或功能名，也不要改。"
        } else if slot == 5 {
            "为了自然可以调整句式，但不要改意思和人称。"
        } else if slot == 6 {
            "有脏话、俚语或随便的说法时不要删掉，用目标语言自然地说出来。"
        } else {
            "只发送最终译文。"
        }
    } else {
        if slot == 0 {
            "목표 언어: 원문이 {native}이면 결과는 {foreign}이다. 원문이 {native}가 아니면 결과는 항상 {native}이다. 다른 언어로는 번역하지 않는다."
        } else if slot == 1 {
            "번역만 쓴다. 설명, 주석, 다른 번역은 넣지 않는다."
        } else if slot == 2 {
            "일상 말투로 옮긴다. 단어를 하나씩 기계적으로 옮기지 않는다. 뜻과 말투는 유지한다."
        } else if slot == 3 {
            "따옴표 안의 말은 절대 번역하지 않는다. 그대로 둔다."
        } else if slot == 4 {
            "따옴표 안이 이름, 용어, 변수, 기능 이름이어도 바꾸지 않는다."
        } else if slot == 5 {
            "자연스럽게 하려고 문장 구조는 바꿔도 된다. 뜻과 인칭은 바꾸지 않는다."
        } else if slot == 6 {
            "욕, 속어, 편한 말투가 있으면 지우지 말고 목표 언어로 자연스럽게 옮긴다."
        } else {
            "최종 번역만 보낸다."
        }
    }
}

/// The rule that keeps the grammatical person, in the interface language of
/// `row`; column 1 is the variant used when English is one of the two
/// languages.
pub open spec fn person_cell(row: int, col: int) -> Seq<char> {
    if row == 0 {
        if col == 0 {
            "Şahıs aynen kalsın. Konuşulan kişi, konuşan kişi ve üçüncü kişi yer değiştirmesin."@
        } else {
            "Şahıs aynen kalsın. sen = you, ben = I, o = he. Çıktı İngilizceyse they/them veya he/she yazma."@
        }
    } else if row == 1 {
        if col == 0 {
            "Keep the person. Do not swap the listener, the speaker, or a third person."@
        } else {
            "Keep the person. you stays you, I stays I, he stays he. If the output is English, do not write they/them or he/she."@
        }
    } else if row == 2 {
        if col == 0 {
            "Die Person bleibt. Angesprochene Person, sprechende Person und eine dritte Person tauschen nicht die Rolle."@
        } else {
            "Die Person bleibt. du = you, ich = I, er = he. Wenn die Ausgabe Englisch ist, schreibe nicht they/them oder he/she."@
        }
    } else if row == 3 {
        if col == 0 {
            "La personne reste. La personne à qui l'on parle, celle qui parle et une troisième personne ne changent pas de rôle."@
        } else {
            "La personne reste. tu = you, je = I, il = he. Si la sortie est en anglais, n'écris pas they/them ni he/she."@
        }
    } else if row == 4 {
        if col == 0 {
            "La persona se mantiene. Quien escucha, quien habla y una tercera persona no cambian de papel."@
        } else {
            "La persona se mantiene. tú = you, yo = I, él = he. Si la salida es inglés, no escribas they/them ni he/she."@
        }
    } else if row == 5 {
        if col == 0 {
            "La persona resta. Chi ascolta, chi parla e una terza persona non si scambiano."@
        } else {
            "La persona resta. tu = you, io = I, lui = he. Se l'uscita è inglese, non scrivere they/them o he/she."@
        }
    } else if row == 6 {
        if col == 0 {
            "A pessoa mantém-se. Quem ouve, quem fala e uma terceira pessoa não trocam de papel."@
        } else {
            "A pessoa mantém-se. tu = you, eu = I, ele = he. Se a saída for inglês, não escrevas they/them nem he/she."@
        }
    } else if row == 7 {
        if col == 0 {
            "Лицо сохраняется. Собеседник, говорящий и третье лицо не меняются местами."@
        } else {
            "Лицо сохраняется. ты = you, я = I, он = he. Если ответ на английском, не пиши they/them или he/she."@
        }
    } else if row == 8 {
        if col == 0 {
            "الضمير يبقى. المخاطَب والمتكلم والغائب لا يتبادلون الأدوار."@
        } else {
            "الضمير يبقى. أنت = you، أنا = I، هو = he. إذا كان الناتج إنجليزيًا فلا تكتب they/them أو he/she."@
        }
    } else if row == 9 {
        if col == 0 {
            "人称はそのまま。話しかけられている人、話している人、第三者を入れ替えない。"@
        } else {
            "人称はそのまま。あなた = you、私 = I、彼 = he。出力が英語なら they/them や he/she は書かない。"@
        }
    } else if row == 10 {
        if col == 0 {
            "人称保持不变。听话的人、说话的人和第三者不要对调。"@
        } else {
            "人称保持不变。你 = you，我 = I，他 = he。如果输出是英语，不要写 they/them 或 he/she。"@
        }
    } else {
        if col == 0 {
            "인칭은 그대로 둔다. 듣는 사람, 말하는 사람, 제삼자를 바꾸지 않는다."@
        } else {
            "인칭은 그대로 둔다. 너 = you, 나 = I, 그 = he. 결과가 영어면 they/them 이나 he/she 를 쓰지 않는다."@
        }
    }
}

pub fn person_text(row: usize, col: usize) -> (r: &'static str)
    requires
        row < 12,
        col < 2,
    ensures
        r@ == person_cell(row as int, col as int),
{
    if row == 0 {
        if col == 0 {
            "Şahıs aynen kalsın. Konuşulan kişi, konuşan kişi ve üçüncü kişi yer değiştirmesin."
        } else {
            "Şahıs aynen kalsın. sen = you, ben = I, o = he. Çıktı İngilizceyse they/them veya he/she yazma."
        }
    } else if row == 1 {
        if col == 0 {
            "Keep the person. Do not swap the listener, the speaker, or a third person."
        } else {
            "Keep the person. you stays you, I stays I, he stays he. If the output is English, do not write they/them or he/she."
        }
    } else if row == 2 {
        if col == 0 {
            "Die Person bleibt. Angesprochene Person, sprechende Person und eine dritte Person tauschen nicht die Rolle."
        } else {
            "Die Person bleibt. du = you, ich = I, er = he. Wenn die Ausgabe Englisch ist, schreibe nicht they/them oder he/she."
        }
    } else if row == 3 {
        if col == 0 {
            "La personne reste. La personne à qui l'on parle, celle qui parle et une troisième personne ne changent pas de rôle."
        } else {
            "La personne reste. tu = you, je = I, il = he. Si la sortie est en anglais, n'écris pas they/them ni he/she."
        }
    } else if row == 4 {
        if col == 0 {
            "La persona se mantiene. Quien escucha, quien habla y una tercera persona no cambian de papel."
        } else {
            "La persona se mantiene. tú = you, yo = I, él = he. Si la salida es inglés, no escribas they/them ni he/she."
        }
    } else if row == 5 {
        if col == 0 {
            "La persona resta. Chi ascolta, chi parla e una terza persona non si scambiano."
        } else {
            "La persona resta. tu = you, io = I, lui = he. Se l'uscita è inglese, non scrivere they/them o he/she."
        }
    } else if row == 6 {
        if col == 0 {
            "A pessoa mantém-se. Quem ouve, quem fala e uma terceira pessoa não trocam de papel."
        } else {
            "A pessoa mantém-se. tu = you, eu = I, ele = he. Se a saída for inglês, não escrevas they/them nem he/she."
        }
    } else if row == 7 {
        if col == 0 {
            "Лицо сохраняется. Собеседник, говорящий и третье лицо не меняются местами."
        } else {
            "Лицо сохраняется. ты = you, я = I, он = he. Если ответ на английском, не пиши they/them или he/she."
        }
    } else if row == 8 {
        if col == 0 {
            "الضمير يبقى. المخاطَب والمتكلم والغائب لا يتبادلون الأدوار."
        } else {
            "الضمير يبقى. أنت = you، أنا = I، هو = he. إذا كان الناتج إنجليزيًا فلا تكتب they/them أو he/she."
        }
    } else if row == 9 {
        if col == 0 {
            "人称はそのまま。話しかけられている人、話している人、第三者を入れ替えない。"
        } else {
            "人称はそのまま。あなた = you、私 = I、彼 = he。出力が英語なら they/them や he/she は書かない。"
        }
    } else if row == 10 {
        if col == 0 {
            "人称保持不变。听话的人、说话的人和第三者不要对调。"
        } else {
            "人称保持不变。你 = you，我 = I，他 = he。如果输出是英语，不要写 they/them 或 he/she。"
        }
    } else {
        if col == 0 {
            "인칭은 그대로 둔다. 듣는 사람, 말하는 사람, 제삼자를 바꾸지 않는다."
        } else {
            "인칭은 그대로 둔다. 너 = you, 나 = I, 그 = he. 결과가 영어면 they/them 이나 he/she 를 쓰지 않는다."
        }
    }
}

/// The person rule for interface language `ui`.
pub open spec fn spec_person_rule(ui: Seq<char>, english_person: bool) -> Seq<char> {
    person_cell(
        ui_row(ui) as int,
        if english_person {
            1
        } else {
            0
        },
    )
}

pub fn person_rule(ui: &str, english_person: bool) -> (r: String)
    ensures
        r@ == spec_person_rule(ui@, english_person),
{
    let u = language_index(ui);
    let row = if u == 12 {
        1
    } else {
        u
    };
    owned(person_text(row, if english_person { 1 } else { 0 }))
}

/// The nine built-in rules, with `{native}` and `{foreign}` placeholders.
pub open spec fn spec_rule_templates(ui: Seq<char>, english_person: bool) -> Seq<Seq<char>> {
    let r = ui_row(ui) as int;
    seq![
        template_cell(r, 0),
        template_cell(r, 1),
        template_cell(r, 2),
        spec_person_rule(ui, english_person),
        template_cell(r, 3),
        template_cell(r, 4),
        template_cell(r, 5),
        template_cell(r, 6),
        template_cell(r, 7),
    ]
}

pub fn rule_templates(ui: &str, english_person: bool) -> (r: Vec<String>)
    ensures
        views(r@) == spec_rule_templates(ui@, english_person),
{
    let u = language_index(ui);
    let row = if u == 12 {
        1
    } else {
        u
    };
    let mut v: Vec<String> = Vec::new();
    v.push(owned(template_text(row, 0)));
    v.push(owned(template_text(row, 1)));
    v.push(owned(template_text(row, 2)));
    v.push(person_rule(ui, english_person));
    v.push(owned(template_text(row, 3)));
    v.push(owned(template_text(row, 4)));
    v.push(owned(template_text(row, 5)));
    v.push(owned(template_text(row, 6)));
    v.push(owned(template_text(row, 7)));
    assert(views(v@) =~= spec_rule_templates(ui@, english_person));
    v
}

/// A rule with its language placeholders filled in.
pub open spec fn fill(rule: Seq<char>, native: Seq<char>, foreign: Seq<char>) -> Seq<char> {
    replace(replace(rule, "{native}"@, native), "{foreign}"@, foreign)
}

/// The built-in rules for interface language `ui`, naming the native and
/// foreign languages in that interface language.
pub open spec fn spec_default_rules(ui: Seq<char>, native_code: Seq<char>, foreign_code: Seq<char>) -> Seq<Seq<char>> {
    let native = spec_localized_name(native_code, ui);
    let foreign = spec_localized_name(foreign_code, ui);
    spec_rule_templates(ui, native_code == "en"@ || foreign_code == "en"@).map_values(
        |r: Seq<char>| fill(r, native, foreign),
    )
}

pub fn default_rules(ui: &str, native_code: &str, foreign_code: &str) -> (r: Vec<String>)
    ensures
        views(r@) == spec_default_rules(ui@, native_code@, foreign_code@),
{
    let native = localized_name(native_code, ui);
    let foreign = localized_name(foreign_code, ui);
    let english_person = str_eq(native_code, "en") || str_eq(foreign_code, "en");
    let templates = rule_templates(ui, english_person);
    proof {
        reveal_strlit("{native}");
        reveal_strlit("{foreign}");
    }
    let ghost want = spec_default_rules(ui@, native_code@, foreign_code@);
    let mut out: Vec<String> = Vec::new();
    let mut i: usize = 0;
    while i < templates.len()
        invariant
            i <= templates@.len(),
            views(templates@) == spec_rule_templates(ui@, english_person),
            english_person == (native_code@ == "en"@ || foreign_code@ == "en"@),
            native@ == spec_localized_name(native_code@, ui@),
            foreign@ == spec_localized_name(foreign_code@, ui@),
            want == spec_default_rules(ui@, native_code@, foreign_code@),
            "{native}"@.len() > 0,
            "{foreign}"@.len() > 0,
            views(out@) == want.take(i as int),
        decreases templates@.len() - i,
    {
        let a = replace_str(templates[i].as_str(), "{native}", native);
        let b = replace_str(a.as_str(), "{foreign}", foreign);
        let ghost before = out@;
        out.push(b);
        assert(views(out@) =~= views(before).push(b@));
        assert(want.take(i + 1) =~= want.take(i as int).push(want[i as int]));
        i = i + 1;
    }
    assert(want.take(i as int) =~= want);
    out
}

/// Starts with the target-language label of one of the interface languages.
pub open spec fn spec_is_target_rule(text: Seq<char>) -> bool {
    let t = trim(text);
    ||| starts_with(t, "Hedef dil:"@)
    ||| starts_with(t, "Zielsprache:"@)
    ||| starts_with(t, "Langue cible"@)
    ||| starts_with(t, "Idioma de destino:"@)
    ||| starts_with(t, "Lingua di arrivo:"@)
    ||| starts_with(t, "Língua de destino:"@)
    ||| starts_with(t, "Язык перевода:"@)
    ||| starts_with(t, "لغة الهدف:"@)
    ||| starts_with(t, "訳し先:"@)
    ||| starts_with(t, "目标语言："@)
    ||| starts_with(t, "목표 언어:"@)
    ||| starts_with(t, "Target language:"@)
}

/// Whether a rule, once trimmed, is a target-language rule.
pub fn is_target_rule(text: &str) -> (r: bool)
    ensures
        r == spec_is_target_rule(text@),
{
    let t = trim_str(text);
    let t = t.as_str();
    starts_with_str(t, "Hedef dil:") || starts_with_str(t, "Zielsprache:") || starts_with_str(
        t,
        "Langue cible",
    ) || starts_with_str(t, "Idioma de destino:") || starts_with_str(t, "Lingua di arrivo:")
        || starts_with_str(t, "Língua de destino:") || starts_with_str(t, "Язык перевода:")
        || starts_with_str(t, "لغة الهدف:") || starts_with_str(t, "訳し先:") || starts_with_str(
        t,
        "目标语言：",
    ) || starts_with_str(t, "목표 언어:") || starts_with_str(t, "Target language:")
}

/// The rules without a leading target-language rule.
pub open spec fn spec_without_target_rule(rules: Seq<Seq<char>>) -> Seq<Seq<char>> {
    if rules.len() > 0 && spec_is_target_rule(rules[0]) {
        rules.drop_first()
    } else {
        rules
    }
}

pub fn without_target_rule(rules: &[String]) -> (r: Vec<String>)
    ensures
        views(r@) == spec_without_target_rule(views(rules@)),
{
    if rules.len() > 0 && is_target_rule(rules[0].as_str()) {
        let r = copy_strings(rules, 1);
        assert(views(rules@).skip(1) =~= views(rules@).drop_first());
        r
    } else {
        let r = copy_strings(rules, 0);
        assert(views(rules@).skip(0) =~= views(rules@));
        r
    }
}

/// A rule as it is kept: trimmed, and at most 2000 characters.
pub open spec fn clean_rule(rule: Seq<char>) -> Seq<char> {
    clipped(trim(rule), 2000)
}

/// The cleaned rules that are not empty, in order.
pub open spec fn cleaned(rules: Seq<Seq<char>>) -> Seq<Seq<char>>
    decreases rules.len(),
{
    if rules.len() == 0 {
        Seq::empty()
    } else if clean_rule(rules.last()).len() > 0 {
        cleaned(rules.drop_last()).push(clean_rule(rules.last()))
    } else {
        cleaned(rules.drop_last())
    }
}

/// The first `n` elements of `s`, or all of `s` when it is shorter.
pub open spec fn take_at_most<A>(s: Seq<A>, n: nat) -> Seq<A> {
    if s.len() <= n {
        s
    } else {
        s.take(n as int)
    }
}

/// At most 80 cleaned, non-empty rules.
pub open spec fn spec_clean_rules(rules: Seq<Seq<char>>) -> Seq<Seq<char>> {
    take_at_most(cleaned(rules), 80)
}

pub fn clean_rules(rules: &[String]) -> (r: Vec<String>)
    ensures
        views(r@) == spec_clean_rules(views(rules@)),
{
    let mut out: Vec<String> = Vec::new();
    let mut i: usize = 0;
    while i < rules.len()
        invariant
            i <= rules@.len(),
            views(out@) == take_at_most(cleaned(views(rules@).take(i as int)), 80),
        decreases rules@.len() - i,
    {
        let t = trim_str(rules[i].as_str());
        let c = clip(t.as_str(), 2000);
        let ghost pre = views(rules@).take(i as int);
        let ghost cur = views(rules@).take(i + 1);
        assert(cur.drop_last() =~= pre);
        assert(cur.last() == rules@[i as int]@);
        let ghost before = out@;
        if !c.as_str().is_empty() {
            if out.len() < 80 {
                out.push(c);
                assert(views(out@) =~= views(before).push(clean_rule(cur.last())));
            }
            assert(cleaned(cur) == cleaned(pre).push(clean_rule(cur.last())));
            assert(views(out@) =~= take_at_most(cleaned(cur), 80));
        } else {
            assert(cleaned(cur) == cleaned(pre));
        }
        i = i + 1;
    }
    assert(views(rules@).take(i as int) =~= views(rules@));
    out
}

/// `n. rule` for the rule at position `index` (counting from 0).
pub open spec fn numbered_line(index: int, rule: Seq<char>) -> Seq<char> {
    dec_digits((index + 1) as nat) + ". "@ + trim(rule)
}

/// The rules, numbered from 1, one per line.
pub open spec fn spec_join_rules(rules: Seq<Seq<char>>) -> Seq<char>
    decreases rules.len(),
{
    if rules.len() == 0 {
        Seq::empty()
    } else if rules.len() == 1 {
        numbered_line(0, rules[0])
    } else {
        spec_join_rules(rules.drop_last()) + "\n"@ + numbered_line(
            rules.len() - 1,
            rules.last(),
        )
    }
}

pub fn join_rules(rules: &[String]) -> (r: String)
    requires
        rules@.len() < u64::MAX,
    ensures
        r@ == spec_join_rules(views(rules@)),
{
    let mut out = String::new();
    let mut i: usize = 0;
    while i < rules.len()
        invariant
            i <= rules@.len() < u64::MAX,
            out@ == spec_join_rules(views(rules@).take(i as int)),
        decreases rules@.len() - i,
    {
        let ghost cur = views(rules@).take(i + 1);
        assert(cur.drop_last() =~= views(rules@).take(i as int));
        if i > 0 {
            out.append("\n");
        }
        let n = decimal((i as u64) + 1);
        out.append(n.as_str());
        out.append(". ");
        let t = trim_str(rules[i].as_str());
        out.append(t.as_str());
        assert(out@ =~= spec_join_rules(cur));
        i = i + 1;
    }
    assert(views(rules@).take(i as int) =~= views(rules@));
    out
}

/// Number of ASCII digits at the start of `s`.
pub open spec fn digit_run(s: Seq<char>) -> nat
    decreases s.len(),
{
    if s.len() > 0 && '0' <= s[0] && s[0] <= '9' {
        1 + digit_run(s.drop_first())
    } else {
        0
    }
}

/// The text after a leading `<digits>.`, trimmed, when there is such a
/// prefix and the text after it is not blank.
pub open spec fn spec_numbered_body(line: Seq<char>) -> Option<Seq<char>> {
    let k = digit_run(line);
    if k == 0 || k >= line.len() || line[k as int] != '.' {
        None
    } else {
        let rest = trim(line.skip(k + 1 as int));
        if rest.len() == 0 {
            None
        } else {
            Some(rest)
        }
    }
}

/// The leading run of digits counts the first `i` digits plus the run after them.
pub proof fn lemma_digit_run_skip(s: Seq<char>, i: int)
    requires
        0 <= i <= s.len(),
        forall|j: int| 0 <= j < i ==> '0' <= #[trigger] s[j] && s[j] <= '9',
    ensures
        digit_run(s) == i + digit_run(s.skip(i)),
    decreases i,
{
    if i > 0 {
        assert('0' <= s[0] && s[0] <= '9');
        assert(s.drop_first().skip(i - 1) =~= s.skip(i));
        assert forall|j: int| 0 <= j < i - 1 implies '0' <= #[trigger] s.drop_first()[j]
            && s.drop_first()[j] <= '9' by {
            assert(s.drop_first()[j] == s[j + 1]);
        }
        lemma_digit_run_skip(s.drop_first(), i - 1);
    } else {
        assert(s.skip(0) =~= s);
    }
}

/// The body of a numbered line such as `3. Keep the tone`.
pub fn numbered_body(line: &str) -> (r: Option<String>)
    ensures
        r matches Some(b) ==> spec_numbered_body(line@) == Some(b@),
        r is None ==> spec_numbered_body(line@) is None,
{
    let v = chars_of(line);
    let n = v.len();
    let mut i: usize = 0;
    while i < n && '0' <= v[i] && v[i] <= '9'
        invariant
            i <= n == v@.len(),
            v@ == line@,
            forall|j: int| 0 <= j < i ==> '0' <= #[trigger] v@[j] && v@[j] <= '9',
        decreases n - i,
    {
        i = i + 1;
    }
    proof {
        lemma_digit_run_skip(v@, i as int);
        if i < n {
            assert(v@.skip(i as int)[0] == v@[i as int]);
        }
    }
    if i == 0 || i >= n || v[i] != '.' {
        return None;
    }
    let rest = string_from(v.as_slice(), i + 1, n);
    assert(rest@ =~= line@.skip(i + 1));
    let t = trim_str(rest.as_str());
    if t.as_str().is_empty() {
        None
    } else {
        Some(t)
    }
}

/// The lines of `s` split at `\n`, continuing a line `cur` already begun.
pub open spec fn lines_from(s: Seq<char>, cur: Seq<char>) -> Seq<Seq<char>>
    decreases s.len(),
{
    if s.len() == 0 {
        if cur.len() == 0 {
            Seq::empty()
        } else {
            seq![cur]
        }
    } else if s[0] == '\n' {
        seq![cur] + lines_from(s.drop_first(), Seq::empty())
    } else {
        lines_from(s.drop_first(), cur.push(s[0]))
    }
}

/// The lines of `s` as `str::lines` yields them (no empty last line after a
/// final `\n`), except that a `\r` before `\n` is kept; every line is
/// trimmed before use, which removes it.
pub open spec fn split_lines(s: Seq<char>) -> Seq<Seq<char>> {
    lines_from(s, Seq::empty())
}

pub fn lines_of(text: &str) -> (r: Vec<String>)
    ensures
        views(r@) == split_lines(text@),
{
    let v = chars_of(text);
    let n = v.len();
    let mut out: Vec<String> = Vec::new();
    let mut start: usize = 0;
    let mut i: usize = 0;
    assert(v@.skip(0) =~= v@);
    assert(v@.subrange(0, 0) =~= Seq::<char>::empty());
    assert(views(out@) =~= Seq::<Seq<char>>::empty());
    while i < n
        invariant
            start <= i <= n == v@.len(),
            v@ == text@,
            split_lines(text@) == views(out@) + lines_from(
                v@.skip(i as int),
                v@.subrange(start as int, i as int),
            ),
        decreases n - i,
    {
        let ghost rest = v@.skip(i as int);
        assert(rest[0] == v@[i as int]);
        assert(rest.drop_first() =~= v@.skip(i + 1));
        if v[i] == '\n' {
            let line = string_from(v.as_slice(), start, i);
            let ghost before = out@;
            out.push(line);
            assert(views(out@) =~= views(before).push(line@));
            assert(v@.subrange(i + 1, i + 1) =~= Seq::<char>::empty());
            assert(views(out@) + lines_from(v@.skip(i + 1), Seq::empty()) =~= views(before) + (
            seq![line@] + lines_from(v@.skip(i + 1), Seq::empty())));
            start = i + 1;
        } else {
            assert(v@.subrange(start as int, i as int).push(v@[i as int]) =~= v@.subrange(
                start as int,
                i + 1,
            ));
        }
        i = i + 1;
    }
    let ghost tail = v@.subrange(start as int, n as int);
    assert(v@.skip(n as int) =~= Seq::<char>::empty());
    if start < n {
        let line = string_from(v.as_slice(), start, n);
        let ghost before = out@;
        out.push(line);
        assert(views(out@) =~= views(before) + seq![tail]);
    } else {
        assert(views(out@) + Seq::<Seq<char>>::empty() =~= views(out@));
    }
    out
}

/// `s` without leading `-` and `•` characters.
pub open spec fn strip_bullets(s: Seq<char>) -> Seq<char>
    decreases s.len(),
{
    if s.len() > 0 && (s[0] == '-' || s[0] == '•') {
        strip_bullets(s.drop_first())
    } else {
        s
    }
}

pub fn strip_bullets_str(s: &str) -> (r: String)
    ensures
        r@ == strip_bullets(s@),
{
    let v = chars_of(s);
    let n = v.len();
    let mut i: usize = 0;
    assert(v@.skip(0) =~= v@);
    while i < n && (v[i] == '-' || v[i] == '•')
        invariant
            i <= n == v@.len(),
            v@ == s@,
            strip_bullets(v@.skip(i as int)) == strip_bullets(s@),
        decreases n - i,
    {
        assert(v@.skip(i as int).drop_first() =~= v@.skip(i + 1));
        i = i + 1;
    }
    assert(v@.skip(i as int) =~= v@.subrange(i as int, n as int));
    string_from(v.as_slice(), i, n)
}

/// The rules with the rule being collected added, when it is not blank.
pub open spec fn flush(rules: Seq<Seq<char>>, current: Option<Seq<char>>) -> Seq<Seq<char>> {
    match current {
        Some(prev) => if trim(prev).len() > 0 {
            rules.push(trim(prev))
        } else {
            rules
        },
        None => rules,
    }
}

/// One line of an old free-text prompt: a numbered line starts a new rule,
/// any other line continues the rule being collected (without its leading
/// bullets), blank lines and text before the first numbered line are skipped.
pub open spec fn legacy_step(st: (Seq<Seq<char>>, Option<Seq<char>>), line: Seq<char>) -> (
    Seq<Seq<char>>,
    Option<Seq<char>>,
) {
    let t = trim(line);
    if t.len() == 0 {
        st
    } else if spec_numbered_body(t) is Some {
        (flush(st.0, st.1), spec_numbered_body(t))
    } else if st.1 is Some {
        let extra = trim(strip_bullets(t));
        if extra.len() > 0 {
            (st.0, Some(st.1->0.push(' ') + extra))
        } else {
            st
        }
    } else {
        st
    }
}

pub open spec fn legacy_fold(lines: Seq<Seq<char>>) -> (Seq<Seq<char>>, Option<Seq<char>>)
    decreases lines.len(),
{
    if lines.len() == 0 {
        (Seq::empty(), None)
    } else {
        legacy_step(legacy_fold(lines.drop_last()), lines.last())
    }
}

/// The rules read from an old free-text prompt, or the whole prompt, trimmed,
/// as one rule when it has no numbered line.
pub open spec fn spec_split_legacy_prompt(text: Seq<char>) -> Seq<Seq<char>> {
    let st = legacy_fold(split_lines(text));
    let rules = flush(st.0, st.1);
    if rules.len() == 0 {
        seq![trim(text)]
    } else {
        rules
    }
}

fn flush_into(rules: &mut Vec<String>, current: Option<String>)
    ensures
        views(final(rules)@) == flush(views(old(rules)@), opt_view(current)),
{
    if let Some(prev) = current {
        let t = trim_str(prev.as_str());
        if !t.as_str().is_empty() {
            let ghost before = rules@;
            rules.push(t);
            assert(views(rules@) =~= views(before).push(t@));
        }
    }
}

/// Splits an old free-text prompt into rules.
pub fn split_legacy_prompt(text: &str) -> (r: Vec<String>)
    ensures
        views(r@) == spec_split_legacy_prompt(text@),
{
    let lines = lines_of(text);
    let mut rules: Vec<String> = Vec::new();
    let mut current: Option<String> = None;
    let mut i: usize = 0;
    assert(views(lines@).take(0) =~= Seq::<Seq<char>>::empty());
    assert(views(rules@) =~= Seq::<Seq<char>>::empty());
    while i < lines.len()
        invariant
            i <= lines@.len(),
            views(lines@) == split_lines(text@),
            (views(rules@), opt_view(current)) == legacy_fold(views(lines@).take(i as int)),
        decreases lines@.len() - i,
    {
        let ghost pre = views(lines@).take(i as int);
        let ghost cur = views(lines@).take(i + 1);
        assert(cur.drop_last() =~= pre);
        assert(cur.last() == lines@[i as int]@);
        let trimmed = trim_str(lines[i].as_str());
        if !trimmed.as_str().is_empty() {
            match numbered_body(trimmed.as_str()) {
                Some(body) => {
                    flush_into(&mut rules, current);
                    current = Some(body);
                },
                None => {
                    let next = match current {
                        Some(mut c) => {
                            let stripped = strip_bullets_str(trimmed.as_str());
                            let extra = trim_str(stripped.as_str());
                            if !extra.as_str().is_empty() {
                                push_char(&mut c, ' ');
                                c.append(extra.as_str());
                            }
                            Some(c)
                        },
                        None => None,
                    };
                    current = next;
                },
            }
        }
        i = i + 1;
    }
    assert(views(lines@).take(i as int) =~= views(lines@));
    flush_into(&mut rules, current);
    if rules.len() == 0 {
        let mut one: Vec<String> = Vec::new();
        one.push(trim_str(text));
        assert(views(one@) =~= seq![trim(text@)]);
        one
    } else {
        rules
    }
}

/// A template with `{native}` and `{foreign}` replaced by the names of the
/// native and foreign languages in the interface language.
pub open spec fn spec_apply_language_tokens(template: Seq<char>, p: Prefs) -> Seq<char> {
    fill(
        template,
        spec_localized_name(p.native_language@, p.ui_language@),
        spec_localized_name(p.foreign_language@, p.ui_language@),
    )
}

pub fn apply_language_tokens(template: &str, prefs: &Prefs) -> (r: String)
    ensures
        r@ == spec_apply_language_tokens(template@, *prefs),
{
    let native = localized_name(prefs.native_language.as_str(), prefs.ui_language.as_str());
    let foreign = localized_name(prefs.foreign_language.as_str(), prefs.ui_language.as_str());
    proof {
        reveal_strlit("{native}");
        reveal_strlit("{foreign}");
    }
    let a = replace_str(template, "{native}", native);
    replace_str(a.as_str(), "{foreign}", foreign)
}

/// The rules in force: the built-in target-language rule, then either the
/// user's cleaned rules (without a target-language rule of their own) or the
/// other built-in rules.
pub open spec fn spec_active_rules(p: Prefs) -> Seq<Seq<char>> {
    let d = spec_default_rules(p.ui_language@, p.native_language@, p.foreign_language@);
    seq![d[0]] + if p.rules_customized {
        spec_without_target_rule(spec_clean_rules(views(p.prompt_rules@)))
    } else {
        d.skip(1)
    }
}

pub fn active_rules(prefs: &Prefs) -> (r: Vec<String>)
    ensures
        views(r@) == spec_active_rules(*prefs),
        r@.len() <= 81,
{
    let defaults = default_rules(
        prefs.ui_language.as_str(),
        prefs.native_language.as_str(),
        prefs.foreign_language.as_str(),
    );
    let ghost d = spec_default_rules(
        prefs.ui_language@,
        prefs.native_language@,
        prefs.foreign_language@,
    );
    assert(d.len() == 9);
    let head = if defaults.len() > 0 {
        defaults[0].clone()
    } else {
        owned("Translate into the selected language.")
    };
    let mut rules: Vec<String> = Vec::new();
    rules.push(head);
    let mut rest = if prefs.rules_customized {
        let cleaned_rules = clean_rules(prefs.prompt_rules.as_slice());
        without_target_rule(cleaned_rules.as_slice())
    } else {
        copy_strings(defaults.as_slice(), 1)
    };
    let ghost r0 = rules@;
    let ghost rest0 = rest@;
    rules.append(&mut rest);
    assert(rules@ == r0 + rest0);
    assert(views(rules@) =~= views(r0) + views(rest0));
    assert(views(r0) =~= seq![d[0]]);
    rules
}

/// The rules shown on the settings page: the rules in force.
pub fn visible_rules(prefs: &Prefs) -> (r: Vec<String>)
    ensures
        views(r@) == spec_active_rules(*prefs),
        r@.len() <= 81,
{
    active_rules(prefs)
}

/// The instruction asking for the translation of `source`.
pub open spec fn spec_user_message(p: Prefs, source: Seq<char>) -> Seq<char> {
    let native = spec_language_name(p.native_language@);
    let foreign = spec_language_name(p.foreign_language@);
    "Translate. If the source is "@ + native + ", write "@ + foreign
        + ". If the source is not "@ + native + ", write "@ + native
        + ". Keep person (you/I/he). Output only the translation.\n\n"@ + source
}

/// The system prompt (the numbered rules in force, languages filled in) and
/// the user message for `source`.
pub fn prompts_for(source: &str, prefs: &Prefs) -> (r: (String, String))
    ensures
        r.0@ == spec_apply_language_tokens(spec_join_rules(spec_active_rules(*prefs)), *prefs),
        r.1@ == spec_user_message(*prefs, source@),
{
    let rules = active_rules(prefs);
    let joined = join_rules(rules.as_slice());
    let system = apply_language_tokens(joined.as_str(), prefs);
    let native = language_name(prefs.native_language.as_str());
    let foreign = language_name(prefs.foreign_language.as_str());
    let mut user = owned("Translate. If the source is ");
    user.append(native);
    user.append(", write ");
    user.append(foreign);
    user.append(". If the source is not ");
    user.append(native);
    user.append(", write ");
    user.append(native);
    user.append(". Keep person (you/I/he). Output only the translation.\n\n");
    user.append(source);
    (system, user)
}

/// The built-in rules for the chosen languages, or `err:language` when one
/// of the codes is not supported.
pub fn preview_prompt_rules(ui_language: String, native_language: String, foreign_language: String) -> (r: Result<Vec<String>, String>)
    ensures
        r is Ok <==> spec_is_lang(ui_language@) && spec_is_lang(native_language@) && spec_is_lang(
            foreign_language@,
        ),
        r matches Err(m) ==> m@ == "err:language"@,
        r matches Ok(v) ==> views(v@) == spec_default_rules(
            ui_language@,
            native_language@,
            foreign_language@,
        ),
{
    if !is_lang(ui_language.as_str()) || !is_lang(native_language.as_str()) || !is_lang(
        foreign_language.as_str(),
    ) {
        return Err(owned("err:language"));
    }
    Ok(default_rules(ui_language.as_str(), native_language.as_str(), foreign_language.as_str()))
}

} // verus!
