//! Target languages of the generated documentation: their names, prompt
//! instructions, directory and file names, and the console messages.
use vstd::prelude::*;
use crate::text::{
    ascii_lower_char, ascii_lowercase, ascii_uppercase, concat_str, ends_with, is_ascii_text, lowercase, str_eq, to_lowercase,
};

verus! {

/// Target language type
#[derive(Debug, Clone, Copy, PartialEq, Eq, Structural)]
pub enum TargetLanguage {
    Chinese,
    English,
    Japanese,
    Korean,
    German,
    French,
    Russian,
    Vietnamese,
}

/// The short code of a language (its `Display` form).
pub open spec fn language_code(l: TargetLanguage) -> Seq<char> {
    match l {
        TargetLanguage::Chinese => "zh"@,
        TargetLanguage::English => "en"@,
        TargetLanguage::Japanese => "ja"@,
        TargetLanguage::Korean => "ko"@,
        TargetLanguage::German => "de"@,
        TargetLanguage::French => "fr"@,
        TargetLanguage::Russian => "ru"@,
        TargetLanguage::Vietnamese => "vi"@,
    }
}

/// The name of a language in that language.
pub open spec fn language_display_name(l: TargetLanguage) -> Seq<char> {
    match l {
        TargetLanguage::Chinese => "中文"@,
        TargetLanguage::English => "English"@,
        TargetLanguage::Japanese => "日本語"@,
        TargetLanguage::Korean => "한국어"@,
        TargetLanguage::German => "Deutsch"@,
        TargetLanguage::French => "Français"@,
        TargetLanguage::Russian => "Русский"@,
        TargetLanguage::Vietnamese => "Tiếng Việt"@,
    }
}

/// The instruction appended to prompts so that the documentation is written in the language.
pub open spec fn language_prompt_instruction(l: TargetLanguage) -> Seq<char> {
    match l {
        TargetLanguage::Chinese => "请使用中文编写文档，确保语言表达准确、专业、易于理解。"@,
        TargetLanguage::English => "Please write the documentation in English, ensuring accurate, professional, and easy-to-understand language."@,
        TargetLanguage::Japanese => "日本語でドキュメントを作成してください。正確で専門的で理解しやすい言語表現を心がけてください。"@,
        TargetLanguage::Korean => "한국어로 문서를 작성해 주세요. 정확하고 전문적이며 이해하기 쉬운 언어 표현을 사용해 주세요."@,
        TargetLanguage::German => "Bitte schreiben Sie die Dokumentation auf Deutsch und stellen Sie sicher, dass die Sprache präzise, professionell und leicht verständlich ist."@,
        TargetLanguage::French => "Veuillez rédiger la documentation en français, en vous assurant que le langage soit précis, professionnel et facile à comprendre."@,
        TargetLanguage::Russian => "Пожалуйста, напишите документацию на русском языке, обеспечив точность, профессионализм и понятность изложения."@,
        TargetLanguage::Vietnamese => "Hãy viết toàn bộ tài liệu bằng tiếng Việt tự nhiên, chính xác và dễ hiểu, sử dụng đúng thuật ngữ kỹ thuật."@,
    }
}

/// The English name of a language.
pub open spec fn language_english_label(l: TargetLanguage) -> Seq<char> {
    match l {
        TargetLanguage::Chinese => "Chinese"@,
        TargetLanguage::English => "English"@,
        TargetLanguage::Japanese => "Japanese"@,
        TargetLanguage::Korean => "Korean"@,
        TargetLanguage::German => "German"@,
        TargetLanguage::French => "French"@,
        TargetLanguage::Russian => "Russian"@,
        TargetLanguage::Vietnamese => "Vietnamese"@,
    }
}

/// The directory name of the deep-exploration documents.
pub open spec fn deep_exploration_dir(l: TargetLanguage) -> Seq<char> {
    match l {
        TargetLanguage::Chinese => "4、深入探索"@,
        TargetLanguage::English => "4.Deep-Exploration"@,
        TargetLanguage::Japanese => "4-詳細探索"@,
        TargetLanguage::Korean => "4-심층-탐색"@,
        TargetLanguage::German => "4-Tiefere-Erkundung"@,
        TargetLanguage::French => "4-Exploration-Approfondie"@,
        TargetLanguage::Russian => "4-Глубокое-Исследование"@,
        TargetLanguage::Vietnamese => "4-Khám-phá-chi-tiết"@,
    }
}

/// The file name of a known document kind, or `None` for another kind.
pub open spec fn known_doc_filename(l: TargetLanguage, doc_type: Seq<char>) -> Option<Seq<char>> {
    if doc_type == "overview"@ {
        Some(match l {
            TargetLanguage::Chinese => "1、项目概述.md"@,
            TargetLanguage::English => "1.Overview.md"@,
            TargetLanguage::Japanese => "1-プロジェクト概要.md"@,
            TargetLanguage::Korean => "1-프로젝트-개요.md"@,
            TargetLanguage::German => "1-Projektübersicht.md"@,
            TargetLanguage::French => "1-Aperçu-du-Projet.md"@,
            TargetLanguage::Russian => "1-Обзор-Проекта.md"@,
            TargetLanguage::Vietnamese => "1-Tổng-quan-Dự-án.md"@,
        })
    } else if doc_type == "architecture"@ {
        Some(match l {
            TargetLanguage::Chinese => "2、架构概览.md"@,
            TargetLanguage::English => "2.Architecture.md"@,
            TargetLanguage::Japanese => "2-アーキテクチャ概要.md"@,
            TargetLanguage::Korean => "2-아키텍처-개요.md"@,
            TargetLanguage::German => "2-Architekturübersicht.md"@,
            TargetLanguage::French => "2-Aperçu-de-l'Architecture.md"@,
            TargetLanguage::Russian => "2-Обзор-Архитектуры.md"@,
            TargetLanguage::Vietnamese => "2-Kiến-trúc.md"@,
        })
    } else if doc_type == "workflow"@ {
        Some(match l {
            TargetLanguage::Chinese => "3、工作流程.md"@,
            TargetLanguage::English => "3.Workflow.md"@,
            TargetLanguage::Japanese => "3-ワークフロー.md"@,
            TargetLanguage::Korean => "3-워크플로우.md"@,
            TargetLanguage::German => "3-Arbeitsablauf.md"@,
            TargetLanguage::French => "3-Flux-de-Travail.md"@,
            TargetLanguage::Russian => "3-Рабочий-Процесс.md"@,
            TargetLanguage::Vietnamese => "3-Luồng-xử-lý.md"@,
        })
    } else if doc_type == "boundary"@ {
        Some(match l {
            TargetLanguage::Chinese => "5、边界调用.md"@,
            TargetLanguage::English => "5.Boundary-Interfaces.md"@,
            TargetLanguage::Japanese => "5-境界インターフェース.md"@,
            TargetLanguage::Korean => "5-경계-인터페이스.md"@,
            TargetLanguage::German => "5-Grenzschnittstellen.md"@,
            TargetLanguage::French => "5-Interfaces-de-Frontière.md"@,
            TargetLanguage::Russian => "5-Граничные-Интерфейсы.md"@,
            TargetLanguage::Vietnamese => "5-Lớp-giao-tiếp-biên.md"@,
        })
    } else if doc_type == "database"@ {
        Some(match l {
            TargetLanguage::Chinese => "6、数据库概览.md"@,
            TargetLanguage::English => "6.Database-Overview.md"@,
            TargetLanguage::Japanese => "6-データベース概要.md"@,
            TargetLanguage::Korean => "6-데이터베이스-개요.md"@,
            TargetLanguage::German => "6-Datenbankübersicht.md"@,
            TargetLanguage::French => "6-Aperçu-Base-de-Données.md"@,
            TargetLanguage::Russian => "6-Обзор-Базы-Данных.md"@,
            TargetLanguage::Vietnamese => "6-Tổng-quan-Cơ-sở-Dữ-liệu.md"@,
        })
    } else {
        None
    }
}

/// The document file name used for a document kind.
pub open spec fn doc_filename(l: TargetLanguage, doc_type: Seq<char>) -> Seq<char> {
    match known_doc_filename(l, doc_type) {
        Some(name) => name,
        None => doc_type + ".md"@,
    }
}

/// The directory name used for a directory kind.
pub open spec fn directory_name(l: TargetLanguage, dir_type: Seq<char>) -> Seq<char> {
    if dir_type == "deep_exploration"@ {
        deep_exploration_dir(l)
    } else {
        dir_type
    }
}

/// The display name of a research agent type.
pub open spec fn agent_type_name(agent_type: Seq<char>) -> Seq<char> {
    if agent_type == "system_context"@ {
        "System Context Research Report"@
    } else if agent_type == "domain_modules"@ {
        "Domain Modules Research Report"@
    } else if agent_type == "architecture"@ {
        "System Architecture Research Report"@
    } else if agent_type == "workflow"@ {
        "Workflow Research Report"@
    } else if agent_type == "key_modules"@ {
        "Key Modules and Components Research Report"@
    } else if agent_type == "boundary"@ {
        "Boundary Interface Research Report"@
    } else if agent_type == "database"@ {
        "Database Overview Research Report"@
    } else {
        agent_type
    }
}

/// The language named by an already lowercased word, if any.
pub open spec fn language_named(lower: Seq<char>) -> Option<TargetLanguage> {
    if lower == "zh"@ || lower == "chinese"@ || lower == "中文"@ {
        Some(TargetLanguage::Chinese)
    } else if lower == "en"@ || lower == "english"@ || lower == "英文"@ {
        Some(TargetLanguage::English)
    } else if lower == "ja"@ || lower == "japanese"@ || lower == "日本語"@ || lower == "日文"@ {
        Some(TargetLanguage::Japanese)
    } else if lower == "ko"@ || lower == "korean"@ || lower == "한국어"@ || lower == "韩文"@ {
        Some(TargetLanguage::Korean)
    } else if lower == "de"@ || lower == "german"@ || lower == "deutsch"@ || lower == "德文"@ {
        Some(TargetLanguage::German)
    } else if lower == "fr"@ || lower == "french"@ || lower == "français"@ || lower == "法文"@ {
        Some(TargetLanguage::French)
    } else if lower == "ru"@ || lower == "russian"@ || lower == "русский"@ || lower == "俄文"@ {
        Some(TargetLanguage::Russian)
    } else if lower == "vi"@ || lower == "vietnamese"@ || lower == "vn"@ || lower == "vietnam"@ {
        Some(TargetLanguage::Vietnamese)
    } else {
        None
    }
}

/// The error for a word that names no language.
pub open spec fn unknown_language_error(s: Seq<char>) -> Seq<char> {
    "Unknown target language: "@ + s
}

/// What `from_str` returns once the input has been lowercased.
pub open spec fn parse_language(lower: Seq<char>, input: Seq<char>) -> Result<TargetLanguage, Seq<char>> {
    match language_named(lower) {
        Some(l) => Ok(l),
        None => Err(unknown_language_error(input)),
    }
}

/// A text of small ASCII letters only.
pub open spec fn is_small_ascii_word(s: Seq<char>) -> bool {
    forall|k: int| 0 <= k < s.len() ==> 'a' <= #[trigger] s[k] && s[k] <= 'z'
}

/// Small ASCII letters are kept by ASCII lowercasing, and capitalizing
/// them and lowercasing again gives them back.
proof fn lemma_small_ascii_word(s: Seq<char>)
    requires
        is_small_ascii_word(s),
    ensures
        is_ascii_text(s),
        ascii_lowercase(s) == s,
        is_ascii_text(ascii_uppercase(s)),
        ascii_lowercase(ascii_uppercase(s)) == s,
{
    assert(ascii_lowercase(s) =~= s);
    let u = ascii_uppercase(s);
    assert forall|k: int| 0 <= k < u.len() implies 'A' <= #[trigger] u[k] && u[k] <= 'Z' && (u[k] as u32) + 32 == s[k] as u32 by {
        assert('a' <= s[k] && s[k] <= 'z');
    }
    assert(ascii_lowercase(u) =~= s);
}

/// A capitalized word: 'A'..='Z' followed by small ASCII letters, lowercased
/// by turning its first letter small.
proof fn lemma_capitalized_word(c: char, rest: Seq<char>)
    requires
        'A' <= c && c <= 'Z',
        is_small_ascii_word(rest),
    ensures
        is_ascii_text(seq![c] + rest),
        ascii_lowercase(seq![c] + rest) == seq![ascii_lower_char(c)] + rest,
{
    lemma_small_ascii_word(rest);
    assert(ascii_lowercase(seq![c] + rest) =~= seq![ascii_lower_char(c)] + rest);
}

/// Parsing gives a language back from its short code, from its English
/// label, and from its short code in capitals: the ASCII forms of a
/// language name it whatever their case.
pub proof fn law_language_round_trip(l: TargetLanguage)
    ensures
        is_ascii_text(language_code(l)),
        parse_language(ascii_lowercase(language_code(l)), language_code(l))
            == Ok::<TargetLanguage, Seq<char>>(l),
        is_ascii_text(language_english_label(l)),
        parse_language(ascii_lowercase(language_english_label(l)), language_english_label(l))
            == Ok::<TargetLanguage, Seq<char>>(l),
        is_ascii_text(ascii_uppercase(language_code(l))),
        parse_language(ascii_lowercase(ascii_uppercase(language_code(l))), ascii_uppercase(language_code(l)))
            == Ok::<TargetLanguage, Seq<char>>(l),
{
    law_code_names_language(l);
    reveal_strlit("Chinese");
    reveal_strlit("English");
    reveal_strlit("French");
    reveal_strlit("German");
    reveal_strlit("Japanese");
    reveal_strlit("Korean");
    reveal_strlit("Russian");
    reveal_strlit("Vietnamese");
    reveal_strlit("chinese");
    reveal_strlit("de");
    reveal_strlit("deutsch");
    reveal_strlit("en");
    reveal_strlit("english");
    reveal_strlit("fr");
    reveal_strlit("français");
    reveal_strlit("french");
    reveal_strlit("german");
    reveal_strlit("ja");
    reveal_strlit("japanese");
    reveal_strlit("ko");
    reveal_strlit("korean");
    reveal_strlit("ru");
    reveal_strlit("russian");
    reveal_strlit("vi");
    reveal_strlit("vietnam");
    reveal_strlit("vietnamese");
    reveal_strlit("vn");
    reveal_strlit("zh");
    reveal_strlit("русский");
    reveal_strlit("中文");
    reveal_strlit("俄文");
    reveal_strlit("德文");
    reveal_strlit("日文");
    reveal_strlit("日本語");
    reveal_strlit("法文");
    reveal_strlit("英文");
    reveal_strlit("韩文");
    reveal_strlit("한국어");
    match l {
        TargetLanguage::Chinese => {
            assert("zh"@ =~= seq!['z', 'h']);
            lemma_small_ascii_word("zh"@);
            let rest = seq!['h', 'i', 'n', 'e', 's', 'e'];
            assert(is_small_ascii_word(rest));
            assert("Chinese"@ =~= seq!['C'] + rest);
            lemma_capitalized_word('C', rest);
            assert(ascii_lower_char('C') == 'c');
            assert(seq!['c'] + rest =~= "chinese"@);
        },
        TargetLanguage::English => {
            assert("en"@ =~= seq!['e', 'n']);
            lemma_small_ascii_word("en"@);
            let rest = seq!['n', 'g', 'l', 'i', 's', 'h'];
            assert(is_small_ascii_word(rest));
            assert("English"@ =~= seq!['E'] + rest);
            lemma_capitalized_word('E', rest);
            assert(ascii_lower_char('E') == 'e');
            assert(seq!['e'] + rest =~= "english"@);
            assert("zh"@.len() != 7);
            assert("chinese"@[0] != 'e');
            assert("中文"@.len() != 7);
        },
        TargetLanguage::Japanese => {
            assert("ja"@ =~= seq!['j', 'a']);
            lemma_small_ascii_word("ja"@);
            let rest = seq!['a', 'p', 'a', 'n', 'e', 's', 'e'];
            assert(is_small_ascii_word(rest));
            assert("Japanese"@ =~= seq!['J'] + rest);
            lemma_capitalized_word('J', rest);
            assert(ascii_lower_char('J') == 'j');
            assert(seq!['j'] + rest =~= "japanese"@);
            assert("zh"@.len() != 8);
            assert("chinese"@.len() != 8);
            assert("中文"@.len() != 8);
            assert("en"@.len() != 8);
            assert("english"@.len() != 8);
            assert("英文"@.len() != 8);
        },
        TargetLanguage::Korean => {
            assert("ko"@ =~= seq!['k', 'o']);
            lemma_small_ascii_word("ko"@);
            let rest = seq!['o', 'r', 'e', 'a', 'n'];
            assert(is_small_ascii_word(rest));
            assert("Korean"@ =~= seq!['K'] + rest);
            lemma_capitalized_word('K', rest);
            assert(ascii_lower_char('K') == 'k');
            assert(seq!['k'] + rest =~= "korean"@);
            assert("zh"@.len() != 6);
            assert("chinese"@.len() != 6);
            assert("中文"@.len() != 6);
            assert("en"@.len() != 6);
            assert("english"@.len() != 6);
            assert("英文"@.len() != 6);
            assert("ja"@.len() != 6);
            assert("japanese"@.len() != 6);
            assert("日本語"@.len() != 6);
            assert("日文"@.len() != 6);
        },
        TargetLanguage::German => {
            assert("de"@ =~= seq!['d', 'e']);
            lemma_small_ascii_word("de"@);
            let rest = seq!['e', 'r', 'm', 'a', 'n'];
            assert(is_small_ascii_word(rest));
            assert("German"@ =~= seq!['G'] + rest);
            lemma_capitalized_word('G', rest);
            assert(ascii_lower_char('G') == 'g');
            assert(seq!['g'] + rest =~= "german"@);
            assert("zh"@.len() != 6);
            assert("chinese"@.len() != 6);
            assert("中文"@.len() != 6);
            assert("en"@.len() != 6);
            assert("english"@.len() != 6);
            assert("英文"@.len() != 6);
            assert("ja"@.len() != 6);
            assert("japanese"@.len() != 6);
            assert("日本語"@.len() != 6);
            assert("日文"@.len() != 6);
            assert("ko"@.len() != 6);
            assert("korean"@[0] != 'g');
            assert("한국어"@.len() != 6);
            assert("韩文"@.len() != 6);
        },
        TargetLanguage::French => {
            assert("fr"@ =~= seq!['f', 'r']);
            lemma_small_ascii_word("fr"@);
            let rest = seq!['r', 'e', 'n', 'c', 'h'];
            assert(is_small_ascii_word(rest));
            assert("French"@ =~= seq!['F'] + rest);
            lemma_capitalized_word('F', rest);
            assert(ascii_lower_char('F') == 'f');
            assert(seq!['f'] + rest =~= "french"@);
            assert("zh"@.len() != 6);
            assert("chinese"@.len() != 6);
            assert("中文"@.len() != 6);
            assert("en"@.len() != 6);
            assert("english"@.len() != 6);
            assert("英文"@.len() != 6);
            assert("ja"@.len() != 6);
            assert("japanese"@.len() != 6);
            assert("日本語"@.len() != 6);
            assert("日文"@.len() != 6);
            assert("ko"@.len() != 6);
            assert("korean"@[0] != 'f');
            assert("한국어"@.len() != 6);
            assert("韩文"@.len() != 6);
            assert("de"@.len() != 6);
            assert("german"@[0] != 'f');
            assert("deutsch"@.len() != 6);
            assert("德文"@.len() != 6);
        },
        TargetLanguage::Russian => {
            assert("ru"@ =~= seq!['r', 'u']);
            lemma_small_ascii_word("ru"@);
            let rest = seq!['u', 's', 's', 'i', 'a', 'n'];
            assert(is_small_ascii_word(rest));
            assert("Russian"@ =~= seq!['R'] + rest);
            lemma_capitalized_word('R', rest);
            assert(ascii_lower_char('R') == 'r');
            assert(seq!['r'] + rest =~= "russian"@);
            assert("zh"@.len() != 7);
            assert("chinese"@[0] != 'r');
            assert("中文"@.len() != 7);
            assert("en"@.len() != 7);
            assert("english"@[0] != 'r');
            assert("英文"@.len() != 7);
            assert("ja"@.len() != 7);
            assert("japanese"@.len() != 7);
            assert("日本語"@.len() != 7);
            assert("日文"@.len() != 7);
            assert("ko"@.len() != 7);
            assert("korean"@.len() != 7);
            assert("한국어"@.len() != 7);
            assert("韩文"@.len() != 7);
            assert("de"@.len() != 7);
            assert("german"@.len() != 7);
            assert("deutsch"@[0] != 'r');
            assert("德文"@.len() != 7);
            assert("fr"@.len() != 7);
            assert("french"@.len() != 7);
            assert("français"@.len() != 7);
            assert("法文"@.len() != 7);
        },
        TargetLanguage::Vietnamese => {
            assert("vi"@ =~= seq!['v', 'i']);
            lemma_small_ascii_word("vi"@);
            let rest = seq!['i', 'e', 't', 'n', 'a', 'm', 'e', 's', 'e'];
            assert(is_small_ascii_word(rest));
            assert("Vietnamese"@ =~= seq!['V'] + rest);
            lemma_capitalized_word('V', rest);
            assert(ascii_lower_char('V') == 'v');
            assert(seq!['v'] + rest =~= "vietnamese"@);
            assert("zh"@.len() != 10);
            assert("chinese"@.len() != 10);
            assert("中文"@.len() != 10);
            assert("en"@.len() != 10);
            assert("english"@.len() != 10);
            assert("英文"@.len() != 10);
            assert("ja"@.len() != 10);
            assert("japanese"@.len() != 10);
            assert("日本語"@.len() != 10);
            assert("日文"@.len() != 10);
            assert("ko"@.len() != 10);
            assert("korean"@.len() != 10);
            assert("한국어"@.len() != 10);
            assert("韩文"@.len() != 10);
            assert("de"@.len() != 10);
            assert("german"@.len() != 10);
            assert("deutsch"@.len() != 10);
            assert("德文"@.len() != 10);
            assert("fr"@.len() != 10);
            assert("french"@.len() != 10);
            assert("français"@.len() != 10);
            assert("法文"@.len() != 10);
            assert("ru"@.len() != 10);
            assert("russian"@.len() != 10);
            assert("русский"@.len() != 10);
            assert("俄文"@.len() != 10);
        },
    }
}

/// The words that name a language once lowercased: its code, its English
/// name, its own name and the other names accepted for it.
pub open spec fn accepted_names(l: TargetLanguage) -> Seq<Seq<char>> {
    match l {
        TargetLanguage::Chinese => seq!["zh"@, "chinese"@, "中文"@],
        TargetLanguage::English => seq!["en"@, "english"@, "英文"@],
        TargetLanguage::Japanese => seq!["ja"@, "japanese"@, "日本語"@, "日文"@],
        TargetLanguage::Korean => seq!["ko"@, "korean"@, "한국어"@, "韩文"@],
        TargetLanguage::German => seq!["de"@, "german"@, "deutsch"@, "德文"@],
        TargetLanguage::French => seq!["fr"@, "french"@, "français"@, "法文"@],
        TargetLanguage::Russian => seq!["ru"@, "russian"@, "русский"@, "俄文"@],
        TargetLanguage::Vietnamese => seq!["vi"@, "vietnamese"@, "vn"@, "vietnam"@],
    }
}

/// A lowercased word names a language exactly when it is one of that
/// language's accepted names, and parsing any of them gives the language,
/// whatever the input was.
pub proof fn law_accepted_names(l: TargetLanguage, w: Seq<char>, input: Seq<char>)
    ensures
        language_named(w) == Some(l) <==> accepted_names(l).contains(w),
        accepted_names(l).contains(w) ==> parse_language(w, input) == Ok::<TargetLanguage, Seq<char>>(l),
        language_named(w) is None ==> parse_language(w, input) == Err::<TargetLanguage, Seq<char>>(
            unknown_language_error(input),
        ),
{
    reveal_strlit("zh");
    reveal_strlit("chinese");
    reveal_strlit("中文");
    reveal_strlit("en");
    reveal_strlit("english");
    reveal_strlit("英文");
    reveal_strlit("ja");
    reveal_strlit("japanese");
    reveal_strlit("日本語");
    reveal_strlit("日文");
    reveal_strlit("ko");
    reveal_strlit("korean");
    reveal_strlit("한국어");
    reveal_strlit("韩文");
    reveal_strlit("de");
    reveal_strlit("german");
    reveal_strlit("deutsch");
    reveal_strlit("德文");
    reveal_strlit("fr");
    reveal_strlit("french");
    reveal_strlit("français");
    reveal_strlit("法文");
    reveal_strlit("ru");
    reveal_strlit("russian");
    reveal_strlit("русский");
    reveal_strlit("俄文");
    reveal_strlit("vi");
    reveal_strlit("vietnamese");
    reveal_strlit("vn");
    reveal_strlit("vietnam");
    assert("zh"@.len() == 2 && "chinese"@.len() == 7);
    assert("zh"@[0] == 'z' && "中文"@[0] == '中');
    assert("zh"@[0] == 'z' && "en"@[0] == 'e');
    assert("zh"@.len() == 2 && "english"@.len() == 7);
    assert("zh"@[0] == 'z' && "英文"@[0] == '英');
    assert("zh"@[0] == 'z' && "ja"@[0] == 'j');
    assert("zh"@.len() == 2 && "japanese"@.len() == 8);
    assert("zh"@.len() == 2 && "日本語"@.len() == 3);
    assert("zh"@[0] == 'z' && "日文"@[0] == '日');
    assert("zh"@[0] == 'z' && "ko"@[0] == 'k');
    assert("zh"@.len() == 2 && "korean"@.len() == 6);
    assert("zh"@.len() == 2 && "한국어"@.len() == 3);
    assert("zh"@[0] == 'z' && "韩文"@[0] == '韩');
    assert("zh"@[0] == 'z' && "de"@[0] == 'd');
    assert("zh"@.len() == 2 && "german"@.len() == 6);
    assert("zh"@.len() == 2 && "deutsch"@.len() == 7);
    assert("zh"@[0] == 'z' && "德文"@[0] == '德');
    assert("zh"@[0] == 'z' && "fr"@[0] == 'f');
    assert("zh"@.len() == 2 && "french"@.len() == 6);
    assert("zh"@.len() == 2 && "français"@.len() == 8);
    assert("zh"@[0] == 'z' && "法文"@[0] == '法');
    assert("zh"@[0] == 'z' && "ru"@[0] == 'r');
    assert("zh"@.len() == 2 && "russian"@.len() == 7);
    assert("zh"@.len() == 2 && "русский"@.len() == 7);
    assert("zh"@[0] == 'z' && "俄文"@[0] == '俄');
    assert("zh"@[0] == 'z' && "vi"@[0] == 'v');
    assert("zh"@.len() == 2 && "vietnamese"@.len() == 10);
    assert("zh"@[0] == 'z' && "vn"@[0] == 'v');
    assert("zh"@.len() == 2 && "vietnam"@.len() == 7);
    assert("chinese"@.len() == 7 && "中文"@.len() == 2);
    assert("chinese"@.len() == 7 && "en"@.len() == 2);
    assert("chinese"@[0] == 'c' && "english"@[0] == 'e');
    assert("chinese"@.len() == 7 && "英文"@.len() == 2);
    assert("chinese"@.len() == 7 && "ja"@.len() == 2);
    assert("chinese"@.len() == 7 && "japanese"@.len() == 8);
    assert("chinese"@.len() == 7 && "日本語"@.len() == 3);
    assert("chinese"@.len() == 7 && "日文"@.len() == 2);
    assert("chinese"@.len() == 7 && "ko"@.len() == 2);
    assert("chinese"@.len() == 7 && "korean"@.len() == 6);
    assert("chinese"@.len() == 7 && "한국어"@.len() == 3);
    assert("chinese"@.len() == 7 && "韩文"@.len() == 2);
    assert("chinese"@.len() == 7 && "de"@.len() == 2);
    assert("chinese"@.len() == 7 && "german"@.len() == 6);
    assert("chinese"@[0] == 'c' && "deutsch"@[0] == 'd');
    assert("chinese"@.len() == 7 && "德文"@.len() == 2);
    assert("chinese"@.len() == 7 && "fr"@.len() == 2);
    assert("chinese"@.len() == 7 && "french"@.len() == 6);
    assert("chinese"@.len() == 7 && "français"@.len() == 8);
    assert("chinese"@.len() == 7 && "法文"@.len() == 2);
    assert("chinese"@.len() == 7 && "ru"@.len() == 2);
    assert("chinese"@[0] == 'c' && "russian"@[0] == 'r');
    assert("chinese"@[0] == 'c' && "русский"@[0] == 'р');
    assert("chinese"@.len() == 7 && "俄文"@.len() == 2);
    assert("chinese"@.len() == 7 && "vi"@.len() == 2);
    assert("chinese"@.len() == 7 && "vietnamese"@.len() == 10);
    assert("chinese"@.len() == 7 && "vn"@.len() == 2);
    assert("chinese"@[0] == 'c' && "vietnam"@[0] == 'v');
    assert("中文"@[0] == '中' && "en"@[0] == 'e');
    assert("中文"@.len() == 2 && "english"@.len() == 7);
    assert("中文"@[0] == '中' && "英文"@[0] == '英');
    assert("中文"@[0] == '中' && "ja"@[0] == 'j');
    assert("中文"@.len() == 2 && "japanese"@.len() == 8);
    assert("中文"@.len() == 2 && "日本語"@.len() == 3);
    assert("中文"@[0] == '中' && "日文"@[0] == '日');
    assert("中文"@[0] == '中' && "ko"@[0] == 'k');
    assert("中文"@.len() == 2 && "korean"@.len() == 6);
    assert("中文"@.len() == 2 && "한국어"@.len() == 3);
    assert("中文"@[0] == '中' && "韩文"@[0] == '韩');
    assert("中文"@[0] == '中' && "de"@[0] == 'd');
    assert("中文"@.len() == 2 && "german"@.len() == 6);
    assert("中文"@.len() == 2 && "deutsch"@.len() == 7);
    assert("中文"@[0] == '中' && "德文"@[0] == '德');
    assert("中文"@[0] == '中' && "fr"@[0] == 'f');
    assert("中文"@.len() == 2 && "french"@.len() == 6);
    assert("中文"@.len() == 2 && "français"@.len() == 8);
    assert("中文"@[0] == '中' && "法文"@[0] == '法');
    assert("中文"@[0] == '中' && "ru"@[0] == 'r');
    assert("中文"@.len() == 2 && "russian"@.len() == 7);
    assert("中文"@.len() == 2 && "русский"@.len() == 7);
    assert("中文"@[0] == '中' && "俄文"@[0] == '俄');
    assert("中文"@[0] == '中' && "vi"@[0] == 'v');
    assert("中文"@.len() == 2 && "vietnamese"@.len() == 10);
    assert("中文"@[0] == '中' && "vn"@[0] == 'v');
    assert("中文"@.len() == 2 && "vietnam"@.len() == 7);
    assert("en"@.len() == 2 && "english"@.len() == 7);
    assert("en"@[0] == 'e' && "英文"@[0] == '英');
    assert("en"@[0] == 'e' && "ja"@[0] == 'j');
    assert("en"@.len() == 2 && "japanese"@.len() == 8);
    assert("en"@.len() == 2 && "日本語"@.len() == 3);
    assert("en"@[0] == 'e' && "日文"@[0] == '日');
    assert("en"@[0] == 'e' && "ko"@[0] == 'k');
    assert("en"@.len() == 2 && "korean"@.len() == 6);
    assert("en"@.len() == 2 && "한국어"@.len() == 3);
    assert("en"@[0] == 'e' && "韩文"@[0] == '韩');
    assert("en"@[0] == 'e' && "de"@[0] == 'd');
    assert("en"@.len() == 2 && "german"@.len() == 6);
    assert("en"@.len() == 2 && "deutsch"@.len() == 7);
    assert("en"@[0] == 'e' && "德文"@[0] == '德');
    assert("en"@[0] == 'e' && "fr"@[0] == 'f');
    assert("en"@.len() == 2 && "french"@.len() == 6);
    assert("en"@.len() == 2 && "français"@.len() == 8);
    assert("en"@[0] == 'e' && "法文"@[0] == '法');
    assert("en"@[0] == 'e' && "ru"@[0] == 'r');
    assert("en"@.len() == 2 && "russian"@.len() == 7);
    assert("en"@.len() == 2 && "русский"@.len() == 7);
    assert("en"@[0] == 'e' && "俄文"@[0] == '俄');
    assert("en"@[0] == 'e' && "vi"@[0] == 'v');
    assert("en"@.len() == 2 && "vietnamese"@.len() == 10);
    assert("en"@[0] == 'e' && "vn"@[0] == 'v');
    assert("en"@.len() == 2 && "vietnam"@.len() == 7);
    assert("english"@.len() == 7 && "英文"@.len() == 2);
    assert("english"@.len() == 7 && "ja"@.len() == 2);
    assert("english"@.len() == 7 && "japanese"@.len() == 8);
    assert("english"@.len() == 7 && "日本語"@.len() == 3);
    assert("english"@.len() == 7 && "日文"@.len() == 2);
    assert("english"@.len() == 7 && "ko"@.len() == 2);
    assert("english"@.len() == 7 && "korean"@.len() == 6);
    assert("english"@.len() == 7 && "한국어"@.len() == 3);
    assert("english"@.len() == 7 && "韩文"@.len() == 2);
    assert("english"@.len() == 7 && "de"@.len() == 2);
    assert("english"@.len() == 7 && "german"@.len() == 6);
    assert("english"@[0] == 'e' && "deutsch"@[0] == 'd');
    assert("english"@.len() == 7 && "德文"@.len() == 2);
    assert("english"@.len() == 7 && "fr"@.len() == 2);
    assert("english"@.len() == 7 && "french"@.len() == 6);
    assert("english"@.len() == 7 && "français"@.len() == 8);
    assert("english"@.len() == 7 && "法文"@.len() == 2);
    assert("english"@.len() == 7 && "ru"@.len() == 2);
    assert("english"@[0] == 'e' && "russian"@[0] == 'r');
    assert("english"@[0] == 'e' && "русский"@[0] == 'р');
    assert("english"@.len() == 7 && "俄文"@.len() == 2);
    assert("english"@.len() == 7 && "vi"@.len() == 2);
    assert("english"@.len() == 7 && "vietnamese"@.len() == 10);
    assert("english"@.len() == 7 && "vn"@.len() == 2);
    assert("english"@[0] == 'e' && "vietnam"@[0] == 'v');
    assert("英文"@[0] == '英' && "ja"@[0] == 'j');
    assert("英文"@.len() == 2 && "japanese"@.len() == 8);
    assert("英文"@.len() == 2 && "日本語"@.len() == 3);
    assert("英文"@[0] == '英' && "日文"@[0] == '日');
    assert("英文"@[0] == '英' && "ko"@[0] == 'k');
    assert("英文"@.len() == 2 && "korean"@.len() == 6);
    assert("英文"@.len() == 2 && "한국어"@.len() == 3);
    assert("英文"@[0] == '英' && "韩文"@[0] == '韩');
    assert("英文"@[0] == '英' && "de"@[0] == 'd');
    assert("英文"@.len() == 2 && "german"@.len() == 6);
    assert("英文"@.len() == 2 && "deutsch"@.len() == 7);
    assert("英文"@[0] == '英' && "德文"@[0] == '德');
    assert("英文"@[0] == '英' && "fr"@[0] == 'f');
    assert("英文"@.len() == 2 && "french"@.len() == 6);
    assert("英文"@.len() == 2 && "français"@.len() == 8);
    assert("英文"@[0] == '英' && "法文"@[0] == '法');
    assert("英文"@[0] == '英' && "ru"@[0] == 'r');
    assert("英文"@.len() == 2 && "russian"@.len() == 7);
    assert("英文"@.len() == 2 && "русский"@.len() == 7);
    assert("英文"@[0] == '英' && "俄文"@[0] == '俄');
    assert("英文"@[0] == '英' && "vi"@[0] == 'v');
    assert("英文"@.len() == 2 && "vietnamese"@.len() == 10);
    assert("英文"@[0] == '英' && "vn"@[0] == 'v');
    assert("英文"@.len() == 2 && "vietnam"@.len() == 7);
    assert("ja"@.len() == 2 && "japanese"@.len() == 8);
    assert("ja"@.len() == 2 && "日本語"@.len() == 3);
    assert("ja"@[0] == 'j' && "日文"@[0] == '日');
    assert("ja"@[0] == 'j' && "ko"@[0] == 'k');
    assert("ja"@.len() == 2 && "korean"@.len() == 6);
    assert("ja"@.len() == 2 && "한국어"@.len() == 3);
    assert("ja"@[0] == 'j' && "韩文"@[0] == '韩');
    assert("ja"@[0] == 'j' && "de"@[0] == 'd');
    assert("ja"@.len() == 2 && "german"@.len() == 6);
    assert("ja"@.len() == 2 && "deutsch"@.len() == 7);
    assert("ja"@[0] == 'j' && "德文"@[0] == '德');
    assert("ja"@[0] == 'j' && "fr"@[0] == 'f');
    assert("ja"@.len() == 2 && "french"@.len() == 6);
    assert("ja"@.len() == 2 && "français"@.len() == 8);
    assert("ja"@[0] == 'j' && "法文"@[0] == '法');
    assert("ja"@[0] == 'j' && "ru"@[0] == 'r');
    assert("ja"@.len() == 2 && "russian"@.len() == 7);
    assert("ja"@.len() == 2 && "русский"@.len() == 7);
    assert("ja"@[0] == 'j' && "俄文"@[0] == '俄');
    assert("ja"@[0] == 'j' && "vi"@[0] == 'v');
    assert("ja"@.len() == 2 && "vietnamese"@.len() == 10);
    assert("ja"@[0] == 'j' && "vn"@[0] == 'v');
    assert("ja"@.len() == 2 && "vietnam"@.len() == 7);
    assert("japanese"@.len() == 8 && "日本語"@.len() == 3);
    assert("japanese"@.len() == 8 && "日文"@.len() == 2);
    assert("japanese"@.len() == 8 && "ko"@.len() == 2);
    assert("japanese"@.len() == 8 && "korean"@.len() == 6);
    assert("japanese"@.len() == 8 && "한국어"@.len() == 3);
    assert("japanese"@.len() == 8 && "韩文"@.len() == 2);
    assert("japanese"@.len() == 8 && "de"@.len() == 2);
    assert("japanese"@.len() == 8 && "german"@.len() == 6);
    assert("japanese"@.len() == 8 && "deutsch"@.len() == 7);
    assert("japanese"@.len() == 8 && "德文"@.len() == 2);
    assert("japanese"@.len() == 8 && "fr"@.len() == 2);
    assert("japanese"@.len() == 8 && "french"@.len() == 6);
    assert("japanese"@[0] == 'j' && "français"@[0] == 'f');
    assert("japanese"@.len() == 8 && "法文"@.len() == 2);
    assert("japanese"@.len() == 8 && "ru"@.len() == 2);
    assert("japanese"@.len() == 8 && "russian"@.len() == 7);
    assert("japanese"@.len() == 8 && "русский"@.len() == 7);
    assert("japanese"@.len() == 8 && "俄文"@.len() == 2);
    assert("japanese"@.len() == 8 && "vi"@.len() == 2);
    assert("japanese"@.len() == 8 && "vietnamese"@.len() == 10);
    assert("japanese"@.len() == 8 && "vn"@.len() == 2);
    assert("japanese"@.len() == 8 && "vietnam"@.len() == 7);
    assert("日本語"@.len() == 3 && "日文"@.len() == 2);
    assert("日本語"@.len() == 3 && "ko"@.len() == 2);
    assert("日本語"@.len() == 3 && "korean"@.len() == 6);
    assert("日本語"@[0] == '日' && "한국어"@[0] == '한');
    assert("日本語"@.len() == 3 && "韩文"@.len() == 2);
    assert("日本語"@.len() == 3 && "de"@.len() == 2);
    assert("日本語"@.len() == 3 && "german"@.len() == 6);
    assert("日本語"@.len() == 3 && "deutsch"@.len() == 7);
    assert("日本語"@.len() == 3 && "德文"@.len() == 2);
    assert("日本語"@.len() == 3 && "fr"@.len() == 2);
    assert("日本語"@.len() == 3 && "french"@.len() == 6);
    assert("日本語"@.len() == 3 && "français"@.len() == 8);
    assert("日本語"@.len() == 3 && "法文"@.len() == 2);
    assert("日本語"@.len() == 3 && "ru"@.len() == 2);
    assert("日本語"@.len() == 3 && "russian"@.len() == 7);
    assert("日本語"@.len() == 3 && "русский"@.len() == 7);
    assert("日本語"@.len() == 3 && "俄文"@.len() == 2);
    assert("日本語"@.len() == 3 && "vi"@.len() == 2);
    assert("日本語"@.len() == 3 && "vietnamese"@.len() == 10);
    assert("日本語"@.len() == 3 && "vn"@.len() == 2);
    assert("日本語"@.len() == 3 && "vietnam"@.len() == 7);
    assert("日文"@[0] == '日' && "ko"@[0] == 'k');
    assert("日文"@.len() == 2 && "korean"@.len() == 6);
    assert("日文"@.len() == 2 && "한국어"@.len() == 3);
    assert("日文"@[0] == '日' && "韩文"@[0] == '韩');
    assert("日文"@[0] == '日' && "de"@[0] == 'd');
    assert("日文"@.len() == 2 && "german"@.len() == 6);
    assert("日文"@.len() == 2 && "deutsch"@.len() == 7);
    assert("日文"@[0] == '日' && "德文"@[0] == '德');
    assert("日文"@[0] == '日' && "fr"@[0] == 'f');
    assert("日文"@.len() == 2 && "french"@.len() == 6);
    assert("日文"@.len() == 2 && "français"@.len() == 8);
    assert("日文"@[0] == '日' && "法文"@[0] == '法');
    assert("日文"@[0] == '日' && "ru"@[0] == 'r');
    assert("日文"@.len() == 2 && "russian"@.len() == 7);
    assert("日文"@.len() == 2 && "русский"@.len() == 7);
    assert("日文"@[0] == '日' && "俄文"@[0] == '俄');
    assert("日文"@[0] == '日' && "vi"@[0] == 'v');
    assert("日文"@.len() == 2 && "vietnamese"@.len() == 10);
    assert("日文"@[0] == '日' && "vn"@[0] == 'v');
    assert("日文"@.len() == 2 && "vietnam"@.len() == 7);
    assert("ko"@.len() == 2 && "korean"@.len() == 6);
    assert("ko"@.len() == 2 && "한국어"@.len() == 3);
    assert("ko"@[0] == 'k' && "韩文"@[0] == '韩');
    assert("ko"@[0] == 'k' && "de"@[0] == 'd');
    assert("ko"@.len() == 2 && "german"@.len() == 6);
    assert("ko"@.len() == 2 && "deutsch"@.len() == 7);
    assert("ko"@[0] == 'k' && "德文"@[0] == '德');
    assert("ko"@[0] == 'k' && "fr"@[0] == 'f');
    assert("ko"@.len() == 2 && "french"@.len() == 6);
    assert("ko"@.len() == 2 && "français"@.len() == 8);
    assert("ko"@[0] == 'k' && "法文"@[0] == '法');
    assert("ko"@[0] == 'k' && "ru"@[0] == 'r');
    assert("ko"@.len() == 2 && "russian"@.len() == 7);
    assert("ko"@.len() == 2 && "русский"@.len() == 7);
    assert("ko"@[0] == 'k' && "俄文"@[0] == '俄');
    assert("ko"@[0] == 'k' && "vi"@[0] == 'v');
    assert("ko"@.len() == 2 && "vietnamese"@.len() == 10);
    assert("ko"@[0] == 'k' && "vn"@[0] == 'v');
    assert("ko"@.len() == 2 && "vietnam"@.len() == 7);
    assert("korean"@.len() == 6 && "한국어"@.len() == 3);
    assert("korean"@.len() == 6 && "韩文"@.len() == 2);
    assert("korean"@.len() == 6 && "de"@.len() == 2);
    assert("korean"@[0] == 'k' && "german"@[0] == 'g');
    assert("korean"@.len() == 6 && "deutsch"@.len() == 7);
    assert("korean"@.len() == 6 && "德文"@.len() == 2);
    assert("korean"@.len() == 6 && "fr"@.len() == 2);
    assert("korean"@[0] == 'k' && "french"@[0] == 'f');
    assert("korean"@.len() == 6 && "français"@.len() == 8);
    assert("korean"@.len() == 6 && "法文"@.len() == 2);
    assert("korean"@.len() == 6 && "ru"@.len() == 2);
    assert("korean"@.len() == 6 && "russian"@.len() == 7);
    assert("korean"@.len() == 6 && "русский"@.len() == 7);
    assert("korean"@.len() == 6 && "俄文"@.len() == 2);
    assert("korean"@.len() == 6 && "vi"@.len() == 2);
    assert("korean"@.len() == 6 && "vietnamese"@.len() == 10);
    assert("korean"@.len() == 6 && "vn"@.len() == 2);
    assert("korean"@.len() == 6 && "vietnam"@.len() == 7);
    assert("한국어"@.len() == 3 && "韩文"@.len() == 2);
    assert("한국어"@.len() == 3 && "de"@.len() == 2);
    assert("한국어"@.len() == 3 && "german"@.len() == 6);
    assert("한국어"@.len() == 3 && "deutsch"@.len() == 7);
    assert("한국어"@.len() == 3 && "德文"@.len() == 2);
    assert("한국어"@.len() == 3 && "fr"@.len() == 2);
    assert("한국어"@.len() == 3 && "french"@.len() == 6);
    assert("한국어"@.len() == 3 && "français"@.len() == 8);
    assert("한국어"@.len() == 3 && "法文"@.len() == 2);
    assert("한국어"@.len() == 3 && "ru"@.len() == 2);
    assert("한국어"@.len() == 3 && "russian"@.len() == 7);
    assert("한국어"@.len() == 3 && "русский"@.len() == 7);
    assert("한국어"@.len() == 3 && "俄文"@.len() == 2);
    assert("한국어"@.len() == 3 && "vi"@.len() == 2);
    assert("한국어"@.len() == 3 && "vietnamese"@.len() == 10);
    assert("한국어"@.len() == 3 && "vn"@.len() == 2);
    assert("한국어"@.len() == 3 && "vietnam"@.len() == 7);
    assert("韩文"@[0] == '韩' && "de"@[0] == 'd');
    assert("韩文"@.len() == 2 && "german"@.len() == 6);
    assert("韩文"@.len() == 2 && "deutsch"@.len() == 7);
    assert("韩文"@[0] == '韩' && "德文"@[0] == '德');
    assert("韩文"@[0] == '韩' && "fr"@[0] == 'f');
    assert("韩文"@.len() == 2 && "french"@.len() == 6);
    assert("韩文"@.len() == 2 && "français"@.len() == 8);
    assert("韩文"@[0] == '韩' && "法文"@[0] == '法');
    assert("韩文"@[0] == '韩' && "ru"@[0] == 'r');
    assert("韩文"@.len() == 2 && "russian"@.len() == 7);
    assert("韩文"@.len() == 2 && "русский"@.len() == 7);
    assert("韩文"@[0] == '韩' && "俄文"@[0] == '俄');
    assert("韩文"@[0] == '韩' && "vi"@[0] == 'v');
    assert("韩文"@.len() == 2 && "vietnamese"@.len() == 10);
    assert("韩文"@[0] == '韩' && "vn"@[0] == 'v');
    assert("韩文"@.len() == 2 && "vietnam"@.len() == 7);
    assert("de"@.len() == 2 && "german"@.len() == 6);
    assert("de"@.len() == 2 && "deutsch"@.len() == 7);
    assert("de"@[0] == 'd' && "德文"@[0] == '德');
    assert("de"@[0] == 'd' && "fr"@[0] == 'f');
    assert("de"@.len() == 2 && "french"@.len() == 6);
    assert("de"@.len() == 2 && "français"@.len() == 8);
    assert("de"@[0] == 'd' && "法文"@[0] == '法');
    assert("de"@[0] == 'd' && "ru"@[0] == 'r');
    assert("de"@.len() == 2 && "russian"@.len() == 7);
    assert("de"@.len() == 2 && "русский"@.len() == 7);
    assert("de"@[0] == 'd' && "俄文"@[0] == '俄');
    assert("de"@[0] == 'd' && "vi"@[0] == 'v');
    assert("de"@.len() == 2 && "vietnamese"@.len() == 10);
    assert("de"@[0] == 'd' && "vn"@[0] == 'v');
    assert("de"@.len() == 2 && "vietnam"@.len() == 7);
    assert("german"@.len() == 6 && "deutsch"@.len() == 7);
    assert("german"@.len() == 6 && "德文"@.len() == 2);
    assert("german"@.len() == 6 && "fr"@.len() == 2);
    assert("german"@[0] == 'g' && "french"@[0] == 'f');
    assert("german"@.len() == 6 && "français"@.len() == 8);
    assert("german"@.len() == 6 && "法文"@.len() == 2);
    assert("german"@.len() == 6 && "ru"@.len() == 2);
    assert("german"@.len() == 6 && "russian"@.len() == 7);
    assert("german"@.len() == 6 && "русский"@.len() == 7);
    assert("german"@.len() == 6 && "俄文"@.len() == 2);
    assert("german"@.len() == 6 && "vi"@.len() == 2);
    assert("german"@.len() == 6 && "vietnamese"@.len() == 10);
    assert("german"@.len() == 6 && "vn"@.len() == 2);
    assert("german"@.len() == 6 && "vietnam"@.len() == 7);
    assert("deutsch"@.len() == 7 && "德文"@.len() == 2);
    assert("deutsch"@.len() == 7 && "fr"@.len() == 2);
    assert("deutsch"@.len() == 7 && "french"@.len() == 6);
    assert("deutsch"@.len() == 7 && "français"@.len() == 8);
    assert("deutsch"@.len() == 7 && "法文"@.len() == 2);
    assert("deutsch"@.len() == 7 && "ru"@.len() == 2);
    assert("deutsch"@[0] == 'd' && "russian"@[0] == 'r');
    assert("deutsch"@[0] == 'd' && "русский"@[0] == 'р');
    assert("deutsch"@.len() == 7 && "俄文"@.len() == 2);
    assert("deutsch"@.len() == 7 && "vi"@.len() == 2);
    assert("deutsch"@.len() == 7 && "vietnamese"@.len() == 10);
    assert("deutsch"@.len() == 7 && "vn"@.len() == 2);
    assert("deutsch"@[0] == 'd' && "vietnam"@[0] == 'v');
    assert("德文"@[0] == '德' && "fr"@[0] == 'f');
    assert("德文"@.len() == 2 && "french"@.len() == 6);
    assert("德文"@.len() == 2 && "français"@.len() == 8);
    assert("德文"@[0] == '德' && "法文"@[0] == '法');
    assert("德文"@[0] == '德' && "ru"@[0] == 'r');
    assert("德文"@.len() == 2 && "russian"@.len() == 7);
    assert("德文"@.len() == 2 && "русский"@.len() == 7);
    assert("德文"@[0] == '德' && "俄文"@[0] == '俄');
    assert("德文"@[0] == '德' && "vi"@[0] == 'v');
    assert("德文"@.len() == 2 && "vietnamese"@.len() == 10);
    assert("德文"@[0] == '德' && "vn"@[0] == 'v');
    assert("德文"@.len() == 2 && "vietnam"@.len() == 7);
    assert("fr"@.len() == 2 && "french"@.len() == 6);
    assert("fr"@.len() == 2 && "français"@.len() == 8);
    assert("fr"@[0] == 'f' && "法文"@[0] == '法');
    assert("fr"@[0] == 'f' && "ru"@[0] == 'r');
    assert("fr"@.len() == 2 && "russian"@.len() == 7);
    assert("fr"@.len() == 2 && "русский"@.len() == 7);
    assert("fr"@[0] == 'f' && "俄文"@[0] == '俄');
    assert("fr"@[0] == 'f' && "vi"@[0] == 'v');
    assert("fr"@.len() == 2 && "vietnamese"@.len() == 10);
    assert("fr"@[0] == 'f' && "vn"@[0] == 'v');
    assert("fr"@.len() == 2 && "vietnam"@.len() == 7);
    assert("french"@.len() == 6 && "français"@.len() == 8);
    assert("french"@.len() == 6 && "法文"@.len() == 2);
    assert("french"@.len() == 6 && "ru"@.len() == 2);
    assert("french"@.len() == 6 && "russian"@.len() == 7);
    assert("french"@.len() == 6 && "русский"@.len() == 7);
    assert("french"@.len() == 6 && "俄文"@.len() == 2);
    assert("french"@.len() == 6 && "vi"@.len() == 2);
    assert("french"@.len() == 6 && "vietnamese"@.len() == 10);
    assert("french"@.len() == 6 && "vn"@.len() == 2);
    assert("french"@.len() == 6 && "vietnam"@.len() == 7);
    assert("français"@.len() == 8 && "法文"@.len() == 2);
    assert("français"@.len() == 8 && "ru"@.len() == 2);
    assert("français"@.len() == 8 && "russian"@.len() == 7);
    assert("français"@.len() == 8 && "русский"@.len() == 7);
    assert("français"@.len() == 8 && "俄文"@.len() == 2);
    assert("français"@.len() == 8 && "vi"@.len() == 2);
    assert("français"@.len() == 8 && "vietnamese"@.len() == 10);
    assert("français"@.len() == 8 && "vn"@.len() == 2);
    assert("français"@.len() == 8 && "vietnam"@.len() == 7);
    assert("法文"@[0] == '法' && "ru"@[0] == 'r');
    assert("法文"@.len() == 2 && "russian"@.len() == 7);
    assert("法文"@.len() == 2 && "русский"@.len() == 7);
    assert("法文"@[0] == '法' && "俄文"@[0] == '俄');
    assert("法文"@[0] == '法' && "vi"@[0] == 'v');
    assert("法文"@.len() == 2 && "vietnamese"@.len() == 10);
    assert("法文"@[0] == '法' && "vn"@[0] == 'v');
    assert("法文"@.len() == 2 && "vietnam"@.len() == 7);
    assert("ru"@.len() == 2 && "russian"@.len() == 7);
    assert("ru"@.len() == 2 && "русский"@.len() == 7);
    assert("ru"@[0] == 'r' && "俄文"@[0] == '俄');
    assert("ru"@[0] == 'r' && "vi"@[0] == 'v');
    assert("ru"@.len() == 2 && "vietnamese"@.len() == 10);
    assert("ru"@[0] == 'r' && "vn"@[0] == 'v');
    assert("ru"@.len() == 2 && "vietnam"@.len() == 7);
    assert("russian"@[0] == 'r' && "русский"@[0] == 'р');
    assert("russian"@.len() == 7 && "俄文"@.len() == 2);
    assert("russian"@.len() == 7 && "vi"@.len() == 2);
    assert("russian"@.len() == 7 && "vietnamese"@.len() == 10);
    assert("russian"@.len() == 7 && "vn"@.len() == 2);
    assert("russian"@[0] == 'r' && "vietnam"@[0] == 'v');
    assert("русский"@.len() == 7 && "俄文"@.len() == 2);
    assert("русский"@.len() == 7 && "vi"@.len() == 2);
    assert("русский"@.len() == 7 && "vietnamese"@.len() == 10);
    assert("русский"@.len() == 7 && "vn"@.len() == 2);
    assert("русский"@[0] == 'р' && "vietnam"@[0] == 'v');
    assert("俄文"@[0] == '俄' && "vi"@[0] == 'v');
    assert("俄文"@.len() == 2 && "vietnamese"@.len() == 10);
    assert("俄文"@[0] == '俄' && "vn"@[0] == 'v');
    assert("俄文"@.len() == 2 && "vietnam"@.len() == 7);
    assert("vi"@.len() == 2 && "vietnamese"@.len() == 10);
    assert("vi"@[1] == 'i' && "vn"@[1] == 'n');
    assert("vi"@.len() == 2 && "vietnam"@.len() == 7);
    assert("vietnamese"@.len() == 10 && "vn"@.len() == 2);
    assert("vietnamese"@.len() == 10 && "vietnam"@.len() == 7);
    assert("vn"@.len() == 2 && "vietnam"@.len() == 7);
    if accepted_names(l).contains(w) {
        let k = choose|k: int| 0 <= k < accepted_names(l).len() && accepted_names(l)[k] == w;
        assert(accepted_names(l)[k] == w);
    }
    if language_named(w) == Some(l) {
        match l {
            TargetLanguage::Chinese => { if w == "zh"@ { assert(accepted_names(l)[0] == w); } if w == "chinese"@ { assert(accepted_names(l)[1] == w); } if w == "中文"@ { assert(accepted_names(l)[2] == w); } },
            TargetLanguage::English => { if w == "en"@ { assert(accepted_names(l)[0] == w); } if w == "english"@ { assert(accepted_names(l)[1] == w); } if w == "英文"@ { assert(accepted_names(l)[2] == w); } },
            TargetLanguage::Japanese => { if w == "ja"@ { assert(accepted_names(l)[0] == w); } if w == "japanese"@ { assert(accepted_names(l)[1] == w); } if w == "日本語"@ { assert(accepted_names(l)[2] == w); } if w == "日文"@ { assert(accepted_names(l)[3] == w); } },
            TargetLanguage::Korean => { if w == "ko"@ { assert(accepted_names(l)[0] == w); } if w == "korean"@ { assert(accepted_names(l)[1] == w); } if w == "한국어"@ { assert(accepted_names(l)[2] == w); } if w == "韩文"@ { assert(accepted_names(l)[3] == w); } },
            TargetLanguage::German => { if w == "de"@ { assert(accepted_names(l)[0] == w); } if w == "german"@ { assert(accepted_names(l)[1] == w); } if w == "deutsch"@ { assert(accepted_names(l)[2] == w); } if w == "德文"@ { assert(accepted_names(l)[3] == w); } },
            TargetLanguage::French => { if w == "fr"@ { assert(accepted_names(l)[0] == w); } if w == "french"@ { assert(accepted_names(l)[1] == w); } if w == "français"@ { assert(accepted_names(l)[2] == w); } if w == "法文"@ { assert(accepted_names(l)[3] == w); } },
            TargetLanguage::Russian => { if w == "ru"@ { assert(accepted_names(l)[0] == w); } if w == "russian"@ { assert(accepted_names(l)[1] == w); } if w == "русский"@ { assert(accepted_names(l)[2] == w); } if w == "俄文"@ { assert(accepted_names(l)[3] == w); } },
            TargetLanguage::Vietnamese => { if w == "vi"@ { assert(accepted_names(l)[0] == w); } if w == "vietnamese"@ { assert(accepted_names(l)[1] == w); } if w == "vn"@ { assert(accepted_names(l)[2] == w); } if w == "vietnam"@ { assert(accepted_names(l)[3] == w); } },
        }
    }
}

/// The file name of each known document kind begins with the number that
/// orders it (overview 1, architecture 2, workflow 3, boundary 5, database
/// 6; 4 is the deep-exploration directory) and ends with ".md", so the five
/// documents of a language never share a file name.
pub proof fn law_doc_filenames_numbered(l: TargetLanguage)
    ensures
        doc_filename(l, "overview"@)[0] == '1',
        ends_with(doc_filename(l, "overview"@), ".md"@),
        doc_filename(l, "architecture"@)[0] == '2',
        ends_with(doc_filename(l, "architecture"@), ".md"@),
        doc_filename(l, "workflow"@)[0] == '3',
        ends_with(doc_filename(l, "workflow"@), ".md"@),
        doc_filename(l, "boundary"@)[0] == '5',
        ends_with(doc_filename(l, "boundary"@), ".md"@),
        doc_filename(l, "database"@)[0] == '6',
        ends_with(doc_filename(l, "database"@), ".md"@),
        directory_name(l, "deep_exploration"@)[0] == '4',
        forall|d1: Seq<char>, d2: Seq<char>|
            #![trigger doc_filename(l, d1), doc_filename(l, d2)]
            known_doc_filename(l, d1) is Some && known_doc_filename(l, d2) is Some && d1 != d2
                ==> doc_filename(l, d1) != doc_filename(l, d2),
{
    reveal_strlit("1、项目概述.md");
    reveal_strlit("1.Overview.md");
    reveal_strlit("1-プロジェクト概要.md");
    reveal_strlit("1-프로젝트-개요.md");
    reveal_strlit("1-Projektübersicht.md");
    reveal_strlit("1-Aperçu-du-Projet.md");
    reveal_strlit("1-Обзор-Проекта.md");
    reveal_strlit("1-Tổng-quan-Dự-án.md");
    reveal_strlit("2、架构概览.md");
    reveal_strlit("2.Architecture.md");
    reveal_strlit("2-アーキテクチャ概要.md");
    reveal_strlit("2-아키텍처-개요.md");
    reveal_strlit("2-Architekturübersicht.md");
    reveal_strlit("2-Aperçu-de-l'Architecture.md");
    reveal_strlit("2-Обзор-Архитектуры.md");
    reveal_strlit("2-Kiến-trúc.md");
    reveal_strlit("3、工作流程.md");
    reveal_strlit("3.Workflow.md");
    reveal_strlit("3-ワークフロー.md");
    reveal_strlit("3-워크플로우.md");
    reveal_strlit("3-Arbeitsablauf.md");
    reveal_strlit("3-Flux-de-Travail.md");
    reveal_strlit("3-Рабочий-Процесс.md");
    reveal_strlit("3-Luồng-xử-lý.md");
    reveal_strlit("5、边界调用.md");
    reveal_strlit("5.Boundary-Interfaces.md");
    reveal_strlit("5-境界インターフェース.md");
    reveal_strlit("5-경계-인터페이스.md");
    reveal_strlit("5-Grenzschnittstellen.md");
    reveal_strlit("5-Interfaces-de-Frontière.md");
    reveal_strlit("5-Граничные-Интерфейсы.md");
    reveal_strlit("5-Lớp-giao-tiếp-biên.md");
    reveal_strlit("6、数据库概览.md");
    reveal_strlit("6.Database-Overview.md");
    reveal_strlit("6-データベース概要.md");
    reveal_strlit("6-데이터베이스-개요.md");
    reveal_strlit("6-Datenbankübersicht.md");
    reveal_strlit("6-Aperçu-Base-de-Données.md");
    reveal_strlit("6-Обзор-Базы-Данных.md");
    reveal_strlit("6-Tổng-quan-Cơ-sở-Dữ-liệu.md");
    reveal_strlit("overview");
    reveal_strlit("architecture");
    reveal_strlit("workflow");
    reveal_strlit("boundary");
    reveal_strlit("database");
    reveal_strlit(".md");
    reveal_strlit("deep_exploration");
    reveal_strlit("4、深入探索");
    assert("4、深入探索"@[0] == '4');
    reveal_strlit("4.Deep-Exploration");
    assert("4.Deep-Exploration"@[0] == '4');
    reveal_strlit("4-詳細探索");
    assert("4-詳細探索"@[0] == '4');
    reveal_strlit("4-심층-탐색");
    assert("4-심층-탐색"@[0] == '4');
    reveal_strlit("4-Tiefere-Erkundung");
    assert("4-Tiefere-Erkundung"@[0] == '4');
    reveal_strlit("4-Exploration-Approfondie");
    assert("4-Exploration-Approfondie"@[0] == '4');
    reveal_strlit("4-Глубокое-Исследование");
    assert("4-Глубокое-Исследование"@[0] == '4');
    reveal_strlit("4-Khám-phá-chi-tiết");
    assert("4-Khám-phá-chi-tiết"@[0] == '4');
    assert("1、项目概述.md"@[0] == '1' && "1、项目概述.md"@.len() == 9);
    assert("1、项目概述.md"@.subrange(6, 9) =~= ".md"@);
    assert("1.Overview.md"@[0] == '1' && "1.Overview.md"@.len() == 13);
    assert("1.Overview.md"@.subrange(10, 13) =~= ".md"@);
    assert("1-プロジェクト概要.md"@[0] == '1' && "1-プロジェクト概要.md"@.len() == 13);
    assert("1-プロジェクト概要.md"@.subrange(10, 13) =~= ".md"@);
    assert("1-프로젝트-개요.md"@[0] == '1' && "1-프로젝트-개요.md"@.len() == 12);
    assert("1-프로젝트-개요.md"@.subrange(9, 12) =~= ".md"@);
    assert("1-Projektübersicht.md"@[0] == '1' && "1-Projektübersicht.md"@.len() == 21);
    assert("1-Projektübersicht.md"@.subrange(18, 21) =~= ".md"@);
    assert("1-Aperçu-du-Projet.md"@[0] == '1' && "1-Aperçu-du-Projet.md"@.len() == 21);
    assert("1-Aperçu-du-Projet.md"@.subrange(18, 21) =~= ".md"@);
    assert("1-Обзор-Проекта.md"@[0] == '1' && "1-Обзор-Проекта.md"@.len() == 18);
    assert("1-Обзор-Проекта.md"@.subrange(15, 18) =~= ".md"@);
    assert("1-Tổng-quan-Dự-án.md"@[0] == '1' && "1-Tổng-quan-Dự-án.md"@.len() == 20);
    assert("1-Tổng-quan-Dự-án.md"@.subrange(17, 20) =~= ".md"@);
    assert("2、架构概览.md"@[0] == '2' && "2、架构概览.md"@.len() == 9);
    assert("2、架构概览.md"@.subrange(6, 9) =~= ".md"@);
    assert("2.Architecture.md"@[0] == '2' && "2.Architecture.md"@.len() == 17);
    assert("2.Architecture.md"@.subrange(14, 17) =~= ".md"@);
    assert("2-アーキテクチャ概要.md"@[0] == '2' && "2-アーキテクチャ概要.md"@.len() == 14);
    assert("2-アーキテクチャ概要.md"@.subrange(11, 14) =~= ".md"@);
    assert("2-아키텍처-개요.md"@[0] == '2' && "2-아키텍처-개요.md"@.len() == 12);
    assert("2-아키텍처-개요.md"@.subrange(9, 12) =~= ".md"@);
    assert("2-Architekturübersicht.md"@[0] == '2' && "2-Architekturübersicht.md"@.len() == 25);
    assert("2-Architekturübersicht.md"@.subrange(22, 25) =~= ".md"@);
    assert("2-Aperçu-de-l'Architecture.md"@[0] == '2' && "2-Aperçu-de-l'Architecture.md"@.len() == 29);
    assert("2-Aperçu-de-l'Architecture.md"@.subrange(26, 29) =~= ".md"@);
    assert("2-Обзор-Архитектуры.md"@[0] == '2' && "2-Обзор-Архитектуры.md"@.len() == 22);
    assert("2-Обзор-Архитектуры.md"@.subrange(19, 22) =~= ".md"@);
    assert("2-Kiến-trúc.md"@[0] == '2' && "2-Kiến-trúc.md"@.len() == 14);
    assert("2-Kiến-trúc.md"@.subrange(11, 14) =~= ".md"@);
    assert("3、工作流程.md"@[0] == '3' && "3、工作流程.md"@.len() == 9);
    assert("3、工作流程.md"@.subrange(6, 9) =~= ".md"@);
    assert("3.Workflow.md"@[0] == '3' && "3.Workflow.md"@.len() == 13);
    assert("3.Workflow.md"@.subrange(10, 13) =~= ".md"@);
    assert("3-ワークフロー.md"@[0] == '3' && "3-ワークフロー.md"@.len() == 11);
    assert("3-ワークフロー.md"@.subrange(8, 11) =~= ".md"@);
    assert("3-워크플로우.md"@[0] == '3' && "3-워크플로우.md"@.len() == 10);
    assert("3-워크플로우.md"@.subrange(7, 10) =~= ".md"@);
    assert("3-Arbeitsablauf.md"@[0] == '3' && "3-Arbeitsablauf.md"@.len() == 18);
    assert("3-Arbeitsablauf.md"@.subrange(15, 18) =~= ".md"@);
    assert("3-Flux-de-Travail.md"@[0] == '3' && "3-Flux-de-Travail.md"@.len() == 20);
    assert("3-Flux-de-Travail.md"@.subrange(17, 20) =~= ".md"@);
    assert("3-Рабочий-Процесс.md"@[0] == '3' && "3-Рабочий-Процесс.md"@.len() == 20);
    assert("3-Рабочий-Процесс.md"@.subrange(17, 20) =~= ".md"@);
    assert("3-Luồng-xử-lý.md"@[0] == '3' && "3-Luồng-xử-lý.md"@.len() == 16);
    assert("3-Luồng-xử-lý.md"@.subrange(13, 16) =~= ".md"@);
    assert("5、边界调用.md"@[0] == '5' && "5、边界调用.md"@.len() == 9);
    assert("5、边界调用.md"@.subrange(6, 9) =~= ".md"@);
    assert("5.Boundary-Interfaces.md"@[0] == '5' && "5.Boundary-Interfaces.md"@.len() == 24);
    assert("5.Boundary-Interfaces.md"@.subrange(21, 24) =~= ".md"@);
    assert("5-境界インターフェース.md"@[0] == '5' && "5-境界インターフェース.md"@.len() == 15);
    assert("5-境界インターフェース.md"@.subrange(12, 15) =~= ".md"@);
    assert("5-경계-인터페이스.md"@[0] == '5' && "5-경계-인터페이스.md"@.len() == 13);
    assert("5-경계-인터페이스.md"@.subrange(10, 13) =~= ".md"@);
    assert("5-Grenzschnittstellen.md"@[0] == '5' && "5-Grenzschnittstellen.md"@.len() == 24);
    assert("5-Grenzschnittstellen.md"@.subrange(21, 24) =~= ".md"@);
    assert("5-Interfaces-de-Frontière.md"@[0] == '5' && "5-Interfaces-de-Frontière.md"@.len() == 28);
    assert("5-Interfaces-de-Frontière.md"@.subrange(25, 28) =~= ".md"@);
    assert("5-Граничные-Интерфейсы.md"@[0] == '5' && "5-Граничные-Интерфейсы.md"@.len() == 25);
    assert("5-Граничные-Интерфейсы.md"@.subrange(22, 25) =~= ".md"@);
    assert("5-Lớp-giao-tiếp-biên.md"@[0] == '5' && "5-Lớp-giao-tiếp-biên.md"@.len() == 23);
    assert("5-Lớp-giao-tiếp-biên.md"@.subrange(20, 23) =~= ".md"@);
    assert("6、数据库概览.md"@[0] == '6' && "6、数据库概览.md"@.len() == 10);
    assert("6、数据库概览.md"@.subrange(7, 10) =~= ".md"@);
    assert("6.Database-Overview.md"@[0] == '6' && "6.Database-Overview.md"@.len() == 22);
    assert("6.Database-Overview.md"@.subrange(19, 22) =~= ".md"@);
    assert("6-データベース概要.md"@[0] == '6' && "6-データベース概要.md"@.len() == 13);
    assert("6-データベース概要.md"@.subrange(10, 13) =~= ".md"@);
    assert("6-데이터베이스-개요.md"@[0] == '6' && "6-데이터베이스-개요.md"@.len() == 14);
    assert("6-데이터베이스-개요.md"@.subrange(11, 14) =~= ".md"@);
    assert("6-Datenbankübersicht.md"@[0] == '6' && "6-Datenbankübersicht.md"@.len() == 23);
    assert("6-Datenbankübersicht.md"@.subrange(20, 23) =~= ".md"@);
    assert("6-Aperçu-Base-de-Données.md"@[0] == '6' && "6-Aperçu-Base-de-Données.md"@.len() == 27);
    assert("6-Aperçu-Base-de-Données.md"@.subrange(24, 27) =~= ".md"@);
    assert("6-Обзор-Базы-Данных.md"@[0] == '6' && "6-Обзор-Базы-Данных.md"@.len() == 22);
    assert("6-Обзор-Базы-Данных.md"@.subrange(19, 22) =~= ".md"@);
    assert("6-Tổng-quan-Cơ-sở-Dữ-liệu.md"@[0] == '6' && "6-Tổng-quan-Cơ-sở-Dữ-liệu.md"@.len() == 28);
    assert("6-Tổng-quan-Cơ-sở-Dữ-liệu.md"@.subrange(25, 28) =~= ".md"@);
    assert("overview"@.len() == 8 && "architecture"@.len() == 12);
    assert("overview"@[0] == 'o' && "workflow"@[0] == 'w');
    assert("overview"@[0] == 'o' && "boundary"@[0] == 'b');
    assert("overview"@[0] == 'o' && "database"@[0] == 'd');
    assert("architecture"@.len() == 12 && "workflow"@.len() == 8);
    assert("architecture"@.len() == 12 && "boundary"@.len() == 8);
    assert("architecture"@.len() == 12 && "database"@.len() == 8);
    assert("workflow"@[0] == 'w' && "boundary"@[0] == 'b');
    assert("workflow"@[0] == 'w' && "database"@[0] == 'd');
    assert("boundary"@[0] == 'b' && "database"@[0] == 'd');
}

/// Different languages get different prompt instructions and different
/// display names: no language's documentation is asked for in another's.
pub proof fn law_language_texts_distinct(a: TargetLanguage, b: TargetLanguage)
    requires
        a != b,
    ensures
        language_prompt_instruction(a) != language_prompt_instruction(b),
        language_display_name(a) != language_display_name(b),
{
    reveal_strlit("请使用中文编写文档，确保语言表达准确、专业、易于理解。");
    reveal_strlit("Please write the documentation in English, ensuring accurate, professional, and easy-to-understand language.");
    reveal_strlit("日本語でドキュメントを作成してください。正確で専門的で理解しやすい言語表現を心がけてください。");
    reveal_strlit("한국어로 문서를 작성해 주세요. 정확하고 전문적이며 이해하기 쉬운 언어 표현을 사용해 주세요.");
    reveal_strlit("Bitte schreiben Sie die Dokumentation auf Deutsch und stellen Sie sicher, dass die Sprache präzise, professionell und leicht verständlich ist.");
    reveal_strlit("Veuillez rédiger la documentation en français, en vous assurant que le langage soit précis, professionnel et facile à comprendre.");
    reveal_strlit("Пожалуйста, напишите документацию на русском языке, обеспечив точность, профессионализм и понятность изложения.");
    reveal_strlit("Hãy viết toàn bộ tài liệu bằng tiếng Việt tự nhiên, chính xác và dễ hiểu, sử dụng đúng thuật ngữ kỹ thuật.");
    reveal_strlit("中文");
    reveal_strlit("English");
    reveal_strlit("日本語");
    reveal_strlit("한국어");
    reveal_strlit("Deutsch");
    reveal_strlit("Français");
    reveal_strlit("Русский");
    reveal_strlit("Tiếng Việt");
    assert("请使用中文编写文档，确保语言表达准确、专业、易于理解。"@.len() == 27 && "Please write the documentation in English, ensuring accurate, professional, and easy-to-understand language."@.len() == 108);
    assert("请使用中文编写文档，确保语言表达准确、专业、易于理解。"@.len() == 27 && "日本語でドキュメントを作成してください。正確で専門的で理解しやすい言語表現を心がけてください。"@.len() == 47);
    assert("请使用中文编写文档，确保语言表达准确、专业、易于理解。"@.len() == 27 && "한국어로 문서를 작성해 주세요. 정확하고 전문적이며 이해하기 쉬운 언어 표현을 사용해 주세요."@.len() == 52);
    assert("请使用中文编写文档，确保语言表达准确、专业、易于理解。"@.len() == 27 && "Bitte schreiben Sie die Dokumentation auf Deutsch und stellen Sie sicher, dass die Sprache präzise, professionell und leicht verständlich ist."@.len() == 142);
    assert("请使用中文编写文档，确保语言表达准确、专业、易于理解。"@.len() == 27 && "Veuillez rédiger la documentation en français, en vous assurant que le langage soit précis, professionnel et facile à comprendre."@.len() == 129);
    assert("请使用中文编写文档，确保语言表达准确、专业、易于理解。"@.len() == 27 && "Пожалуйста, напишите документацию на русском языке, обеспечив точность, профессионализм и понятность изложения."@.len() == 111);
    assert("请使用中文编写文档，确保语言表达准确、专业、易于理解。"@.len() == 27 && "Hãy viết toàn bộ tài liệu bằng tiếng Việt tự nhiên, chính xác và dễ hiểu, sử dụng đúng thuật ngữ kỹ thuật."@.len() == 106);
    assert("Please write the documentation in English, ensuring accurate, professional, and easy-to-understand language."@.len() == 108 && "日本語でドキュメントを作成してください。正確で専門的で理解しやすい言語表現を心がけてください。"@.len() == 47);
    assert("Please write the documentation in English, ensuring accurate, professional, and easy-to-understand language."@.len() == 108 && "한국어로 문서를 작성해 주세요. 정확하고 전문적이며 이해하기 쉬운 언어 표현을 사용해 주세요."@.len() == 52);
    assert("Please write the documentation in English, ensuring accurate, professional, and easy-to-understand language."@.len() == 108 && "Bitte schreiben Sie die Dokumentation auf Deutsch und stellen Sie sicher, dass die Sprache präzise, professionell und leicht verständlich ist."@.len() == 142);
    assert("Please write the documentation in English, ensuring accurate, professional, and easy-to-understand language."@.len() == 108 && "Veuillez rédiger la documentation en français, en vous assurant que le langage soit précis, professionnel et facile à comprendre."@.len() == 129);
    assert("Please write the documentation in English, ensuring accurate, professional, and easy-to-understand language."@.len() == 108 && "Пожалуйста, напишите документацию на русском языке, обеспечив точность, профессионализм и понятность изложения."@.len() == 111);
    assert("Please write the documentation in English, ensuring accurate, professional, and easy-to-understand language."@.len() == 108 && "Hãy viết toàn bộ tài liệu bằng tiếng Việt tự nhiên, chính xác và dễ hiểu, sử dụng đúng thuật ngữ kỹ thuật."@.len() == 106);
    assert("日本語でドキュメントを作成してください。正確で専門的で理解しやすい言語表現を心がけてください。"@.len() == 47 && "한국어로 문서를 작성해 주세요. 정확하고 전문적이며 이해하기 쉬운 언어 표현을 사용해 주세요."@.len() == 52);
    assert("日本語でドキュメントを作成してください。正確で専門的で理解しやすい言語表現を心がけてください。"@.len() == 47 && "Bitte schreiben Sie die Dokumentation auf Deutsch und stellen Sie sicher, dass die Sprache präzise, professionell und leicht verständlich ist."@.len() == 142);
    assert("日本語でドキュメントを作成してください。正確で専門的で理解しやすい言語表現を心がけてください。"@.len() == 47 && "Veuillez rédiger la documentation en français, en vous assurant que le langage soit précis, professionnel et facile à comprendre."@.len() == 129);
    assert("日本語でドキュメントを作成してください。正確で専門的で理解しやすい言語表現を心がけてください。"@.len() == 47 && "Пожалуйста, напишите документацию на русском языке, обеспечив точность, профессионализм и понятность изложения."@.len() == 111);
    assert("日本語でドキュメントを作成してください。正確で専門的で理解しやすい言語表現を心がけてください。"@.len() == 47 && "Hãy viết toàn bộ tài liệu bằng tiếng Việt tự nhiên, chính xác và dễ hiểu, sử dụng đúng thuật ngữ kỹ thuật."@.len() == 106);
    assert("한국어로 문서를 작성해 주세요. 정확하고 전문적이며 이해하기 쉬운 언어 표현을 사용해 주세요."@.len() == 52 && "Bitte schreiben Sie die Dokumentation auf Deutsch und stellen Sie sicher, dass die Sprache präzise, professionell und leicht verständlich ist."@.len() == 142);
    assert("한국어로 문서를 작성해 주세요. 정확하고 전문적이며 이해하기 쉬운 언어 표현을 사용해 주세요."@.len() == 52 && "Veuillez rédiger la documentation en français, en vous assurant que le langage soit précis, professionnel et facile à comprendre."@.len() == 129);
    assert("한국어로 문서를 작성해 주세요. 정확하고 전문적이며 이해하기 쉬운 언어 표현을 사용해 주세요."@.len() == 52 && "Пожалуйста, напишите документацию на русском языке, обеспечив точность, профессионализм и понятность изложения."@.len() == 111);
    assert("한국어로 문서를 작성해 주세요. 정확하고 전문적이며 이해하기 쉬운 언어 표현을 사용해 주세요."@.len() == 52 && "Hãy viết toàn bộ tài liệu bằng tiếng Việt tự nhiên, chính xác và dễ hiểu, sử dụng đúng thuật ngữ kỹ thuật."@.len() == 106);
    assert("Bitte schreiben Sie die Dokumentation auf Deutsch und stellen Sie sicher, dass die Sprache präzise, professionell und leicht verständlich ist."@.len() == 142 && "Veuillez rédiger la documentation en français, en vous assurant que le langage soit précis, professionnel et facile à comprendre."@.len() == 129);
    assert("Bitte schreiben Sie die Dokumentation auf Deutsch und stellen Sie sicher, dass die Sprache präzise, professionell und leicht verständlich ist."@.len() == 142 && "Пожалуйста, напишите документацию на русском языке, обеспечив точность, профессионализм и понятность изложения."@.len() == 111);
    assert("Bitte schreiben Sie die Dokumentation auf Deutsch und stellen Sie sicher, dass die Sprache präzise, professionell und leicht verständlich ist."@.len() == 142 && "Hãy viết toàn bộ tài liệu bằng tiếng Việt tự nhiên, chính xác và dễ hiểu, sử dụng đúng thuật ngữ kỹ thuật."@.len() == 106);
    assert("Veuillez rédiger la documentation en français, en vous assurant que le langage soit précis, professionnel et facile à comprendre."@.len() == 129 && "Пожалуйста, напишите документацию на русском языке, обеспечив точность, профессионализм и понятность изложения."@.len() == 111);
    assert("Veuillez rédiger la documentation en français, en vous assurant que le langage soit précis, professionnel et facile à comprendre."@.len() == 129 && "Hãy viết toàn bộ tài liệu bằng tiếng Việt tự nhiên, chính xác và dễ hiểu, sử dụng đúng thuật ngữ kỹ thuật."@.len() == 106);
    assert("Пожалуйста, напишите документацию на русском языке, обеспечив точность, профессионализм и понятность изложения."@.len() == 111 && "Hãy viết toàn bộ tài liệu bằng tiếng Việt tự nhiên, chính xác và dễ hiểu, sử dụng đúng thuật ngữ kỹ thuật."@.len() == 106);
    assert("中文"@.len() == 2 && "English"@.len() == 7);
    assert("中文"@.len() == 2 && "日本語"@.len() == 3);
    assert("中文"@.len() == 2 && "한국어"@.len() == 3);
    assert("中文"@.len() == 2 && "Deutsch"@.len() == 7);
    assert("中文"@.len() == 2 && "Français"@.len() == 8);
    assert("中文"@.len() == 2 && "Русский"@.len() == 7);
    assert("中文"@.len() == 2 && "Tiếng Việt"@.len() == 10);
    assert("English"@.len() == 7 && "日本語"@.len() == 3);
    assert("English"@.len() == 7 && "한국어"@.len() == 3);
    assert("English"@[0] == 'E' && "Deutsch"@[0] == 'D');
    assert("English"@.len() == 7 && "Français"@.len() == 8);
    assert("English"@[0] == 'E' && "Русский"@[0] == 'Р');
    assert("English"@.len() == 7 && "Tiếng Việt"@.len() == 10);
    assert("日本語"@[0] == '日' && "한국어"@[0] == '한');
    assert("日本語"@.len() == 3 && "Deutsch"@.len() == 7);
    assert("日本語"@.len() == 3 && "Français"@.len() == 8);
    assert("日本語"@.len() == 3 && "Русский"@.len() == 7);
    assert("日本語"@.len() == 3 && "Tiếng Việt"@.len() == 10);
    assert("한국어"@.len() == 3 && "Deutsch"@.len() == 7);
    assert("한국어"@.len() == 3 && "Français"@.len() == 8);
    assert("한국어"@.len() == 3 && "Русский"@.len() == 7);
    assert("한국어"@.len() == 3 && "Tiếng Việt"@.len() == 10);
    assert("Deutsch"@.len() == 7 && "Français"@.len() == 8);
    assert("Deutsch"@[0] == 'D' && "Русский"@[0] == 'Р');
    assert("Deutsch"@.len() == 7 && "Tiếng Việt"@.len() == 10);
    assert("Français"@.len() == 8 && "Русский"@.len() == 7);
    assert("Français"@.len() == 8 && "Tiếng Việt"@.len() == 10);
    assert("Русский"@.len() == 7 && "Tiếng Việt"@.len() == 10);
}

/// The short code of every language names that language again: parsing a
/// language's `Display` form, lowercased, gives the language back.
pub proof fn law_code_names_language(l: TargetLanguage)
    ensures
        language_named(language_code(l)) == Some(l),
        parse_language(language_code(l), language_code(l)) == Ok::<TargetLanguage, Seq<char>>(l),
{
    reveal_strlit("zh");
    reveal_strlit("chinese");
    reveal_strlit("中文");
    reveal_strlit("en");
    reveal_strlit("english");
    reveal_strlit("英文");
    reveal_strlit("ja");
    reveal_strlit("japanese");
    reveal_strlit("日本語");
    reveal_strlit("日文");
    reveal_strlit("ko");
    reveal_strlit("korean");
    reveal_strlit("한국어");
    reveal_strlit("韩文");
    reveal_strlit("de");
    reveal_strlit("german");
    reveal_strlit("deutsch");
    reveal_strlit("德文");
    reveal_strlit("fr");
    reveal_strlit("french");
    reveal_strlit("français");
    reveal_strlit("法文");
    reveal_strlit("ru");
    reveal_strlit("russian");
    reveal_strlit("русский");
    reveal_strlit("俄文");
    reveal_strlit("vi");
    reveal_strlit("vietnamese");
    reveal_strlit("vn");
    reveal_strlit("vietnam");
    match l {
        TargetLanguage::Chinese => {
        },
        TargetLanguage::English => {
            assert("en"@[0] == 'e' && "en"@[1] == 'n');
            assert("zh"@[0] != 'e');
            assert("chinese"@.len() != 2);
            assert("中文"@[0] != 'e');
        },
        TargetLanguage::Japanese => {
            assert("ja"@[0] == 'j' && "ja"@[1] == 'a');
            assert("zh"@[0] != 'j');
            assert("chinese"@.len() != 2);
            assert("中文"@[0] != 'j');
            assert("en"@[0] != 'j');
            assert("english"@.len() != 2);
            assert("英文"@[0] != 'j');
        },
        TargetLanguage::Korean => {
            assert("ko"@[0] == 'k' && "ko"@[1] == 'o');
            assert("zh"@[0] != 'k');
            assert("chinese"@.len() != 2);
            assert("中文"@[0] != 'k');
            assert("en"@[0] != 'k');
            assert("english"@.len() != 2);
            assert("英文"@[0] != 'k');
            assert("ja"@[0] != 'k');
            assert("japanese"@.len() != 2);
            assert("日本語"@.len() != 2);
            assert("日文"@[0] != 'k');
        },
        TargetLanguage::German => {
            assert("de"@[0] == 'd' && "de"@[1] == 'e');
            assert("zh"@[0] != 'd');
            assert("chinese"@.len() != 2);
            assert("中文"@[0] != 'd');
            assert("en"@[0] != 'd');
            assert("english"@.len() != 2);
            assert("英文"@[0] != 'd');
            assert("ja"@[0] != 'd');
            assert("japanese"@.len() != 2);
            assert("日本語"@.len() != 2);
            assert("日文"@[0] != 'd');
            assert("ko"@[0] != 'd');
            assert("korean"@.len() != 2);
            assert("한국어"@.len() != 2);
            assert("韩文"@[0] != 'd');
        },
        TargetLanguage::French => {
            assert("fr"@[0] == 'f' && "fr"@[1] == 'r');
            assert("zh"@[0] != 'f');
            assert("chinese"@.len() != 2);
            assert("中文"@[0] != 'f');
            assert("en"@[0] != 'f');
            assert("english"@.len() != 2);
            assert("英文"@[0] != 'f');
            assert("ja"@[0] != 'f');
            assert("japanese"@.len() != 2);
            assert("日本語"@.len() != 2);
            assert("日文"@[0] != 'f');
            assert("ko"@[0] != 'f');
            assert("korean"@.len() != 2);
            assert("한국어"@.len() != 2);
            assert("韩文"@[0] != 'f');
            assert("de"@[0] != 'f');
            assert("german"@.len() != 2);
            assert("deutsch"@.len() != 2);
            assert("德文"@[0] != 'f');
        },
        TargetLanguage::Russian => {
            assert("ru"@[0] == 'r' && "ru"@[1] == 'u');
            assert("zh"@[0] != 'r');
            assert("chinese"@.len() != 2);
            assert("中文"@[0] != 'r');
            assert("en"@[0] != 'r');
            assert("english"@.len() != 2);
            assert("英文"@[0] != 'r');
            assert("ja"@[0] != 'r');
            assert("japanese"@.len() != 2);
            assert("日本語"@.len() != 2);
            assert("日文"@[0] != 'r');
            assert("ko"@[0] != 'r');
            assert("korean"@.len() != 2);
            assert("한국어"@.len() != 2);
            assert("韩文"@[0] != 'r');
            assert("de"@[0] != 'r');
            assert("german"@.len() != 2);
            assert("deutsch"@.len() != 2);
            assert("德文"@[0] != 'r');
            assert("fr"@[0] != 'r');
            assert("french"@.len() != 2);
            assert("français"@.len() != 2);
            assert("法文"@[0] != 'r');
        },
        TargetLanguage::Vietnamese => {
            assert("vi"@[0] == 'v' && "vi"@[1] == 'i');
            assert("zh"@[0] != 'v');
            assert("chinese"@.len() != 2);
            assert("中文"@[0] != 'v');
            assert("en"@[0] != 'v');
            assert("english"@.len() != 2);
            assert("英文"@[0] != 'v');
            assert("ja"@[0] != 'v');
            assert("japanese"@.len() != 2);
            assert("日本語"@.len() != 2);
            assert("日文"@[0] != 'v');
            assert("ko"@[0] != 'v');
            assert("korean"@.len() != 2);
            assert("한국어"@.len() != 2);
            assert("韩文"@[0] != 'v');
            assert("de"@[0] != 'v');
            assert("german"@.len() != 2);
            assert("deutsch"@.len() != 2);
            assert("德文"@[0] != 'v');
            assert("fr"@[0] != 'v');
            assert("french"@.len() != 2);
            assert("français"@.len() != 2);
            assert("法文"@[0] != 'v');
            assert("ru"@[0] != 'v');
            assert("russian"@.len() != 2);
            assert("русский"@.len() != 2);
            assert("俄文"@[0] != 'v');
        },
    }
}

impl Default for TargetLanguage {
    fn default() -> (r: Self)
        ensures
            r == TargetLanguage::English,
    {
        Self::English
    }
}

impl std::str::FromStr for TargetLanguage {
    type Err = String;

    fn from_str(s: &str) -> (r: Result<Self, Self::Err>)
        ensures
            match r {
                Ok(l) => parse_language(lowercase(s@), s@) == Ok::<TargetLanguage, Seq<char>>(l),
                Err(e) => parse_language(lowercase(s@), s@) == Err::<TargetLanguage, Seq<char>>(e@),
            },
            is_ascii_text(s@) ==> match r {
                Ok(l) => parse_language(ascii_lowercase(s@), s@) == Ok::<TargetLanguage, Seq<char>>(l),
                Err(e) => parse_language(ascii_lowercase(s@), s@) == Err::<TargetLanguage, Seq<char>>(e@),
            },
    {
        TargetLanguage::parse(s)
    }
}

impl TargetLanguage {
    /// The short code of the language ("zh", "en", ...), its `Display` form.
    pub fn to_string(&self) -> (r: String)
        ensures
            r@ == language_code(*self),
    {
        let code: &str = match self {
            TargetLanguage::Chinese => "zh",
            TargetLanguage::English => "en",
            TargetLanguage::Japanese => "ja",
            TargetLanguage::Korean => "ko",
            TargetLanguage::German => "de",
            TargetLanguage::French => "fr",
            TargetLanguage::Russian => "ru",
            TargetLanguage::Vietnamese => "vi",
        };
        code.to_owned()
    }

    /// Parses a language code or name, ignoring case.
    pub fn parse(s: &str) -> (r: Result<TargetLanguage, String>)
        ensures
            match r {
                Ok(l) => parse_language(lowercase(s@), s@) == Ok::<TargetLanguage, Seq<char>>(l),
                Err(e) => parse_language(lowercase(s@), s@) == Err::<TargetLanguage, Seq<char>>(e@),
            },
            is_ascii_text(s@) ==> match r {
                Ok(l) => parse_language(ascii_lowercase(s@), s@) == Ok::<TargetLanguage, Seq<char>>(l),
                Err(e) => parse_language(ascii_lowercase(s@), s@) == Err::<TargetLanguage, Seq<char>>(e@),
            },
    {
        let lower = to_lowercase(s);
        Self::from_lowercase(lower.as_str(), s)
    }

    /// Parses a language from `lower`, the lowercased form of `input`;
    /// the error names `input`.
    pub fn from_lowercase(lower: &str, input: &str) -> (r: Result<TargetLanguage, String>)
        ensures
            match r {
                Ok(l) => parse_language(lower@, input@) == Ok::<TargetLanguage, Seq<char>>(l),
                Err(e) => parse_language(lower@, input@) == Err::<TargetLanguage, Seq<char>>(e@),
            },
    {
        if str_eq(lower, "zh") || str_eq(lower, "chinese") || str_eq(lower, "中文") {
            Ok(TargetLanguage::Chinese)
        } else if str_eq(lower, "en") || str_eq(lower, "english") || str_eq(lower, "英文") {
            Ok(TargetLanguage::English)
        } else if str_eq(lower, "ja") || str_eq(lower, "japanese") || str_eq(lower, "日本語") || str_eq(lower, "日文") {
            Ok(TargetLanguage::Japanese)
        } else if str_eq(lower, "ko") || str_eq(lower, "korean") || str_eq(lower, "한국어") || str_eq(lower, "韩文") {
            Ok(TargetLanguage::Korean)
        } else if str_eq(lower, "de") || str_eq(lower, "german") || str_eq(lower, "deutsch") || str_eq(lower, "德文") {
            Ok(TargetLanguage::German)
        } else if str_eq(lower, "fr") || str_eq(lower, "french") || str_eq(lower, "français") || str_eq(lower, "法文") {
            Ok(TargetLanguage::French)
        } else if str_eq(lower, "ru") || str_eq(lower, "russian") || str_eq(lower, "русский") || str_eq(lower, "俄文") {
            Ok(TargetLanguage::Russian)
        } else if str_eq(lower, "vi") || str_eq(lower, "vietnamese") || str_eq(lower, "vn") || str_eq(lower, "vietnam") {
            Ok(TargetLanguage::Vietnamese)
        } else {
            Err(concat_str("Unknown target language: ", input))
        }
    }

    /// Get the descriptive name of the language
    pub fn display_name(&self) -> (r: &'static str)
        ensures
            r@ == language_display_name(*self),
    {
        match self {
            TargetLanguage::Chinese => "中文",
            TargetLanguage::English => "English",
            TargetLanguage::Japanese => "日本語",
            TargetLanguage::Korean => "한국어",
            TargetLanguage::German => "Deutsch",
            TargetLanguage::French => "Français",
            TargetLanguage::Russian => "Русский",
            TargetLanguage::Vietnamese => "Tiếng Việt",
        }
    }

    /// Get the prompt instruction for the language
    pub fn prompt_instruction(&self) -> (r: &'static str)
        ensures
            r@ == language_prompt_instruction(*self),
    {
        match self {
            TargetLanguage::Chinese => "请使用中文编写文档，确保语言表达准确、专业、易于理解。",
            TargetLanguage::English => "Please write the documentation in English, ensuring accurate, professional, and easy-to-understand language.",
            TargetLanguage::Japanese => "日本語でドキュメントを作成してください。正確で専門的で理解しやすい言語表現を心がけてください。",
            TargetLanguage::Korean => "한국어로 문서를 작성해 주세요. 정확하고 전문적이며 이해하기 쉬운 언어 표현을 사용해 주세요.",
            TargetLanguage::German => "Bitte schreiben Sie die Dokumentation auf Deutsch und stellen Sie sicher, dass die Sprache präzise, professionell und leicht verständlich ist.",
            TargetLanguage::French => "Veuillez rédiger la documentation en français, en vous assurant que le langage soit précis, professionnel et facile à comprendre.",
            TargetLanguage::Russian => "Пожалуйста, напишите документацию на русском языке, обеспечив точность, профессионализм и понятность изложения.",
            TargetLanguage::Vietnamese => "Hãy viết toàn bộ tài liệu bằng tiếng Việt tự nhiên, chính xác và dễ hiểu, sử dụng đúng thuật ngữ kỹ thuật.",
        }
    }

    /// Get directory name
    pub fn get_directory_name(&self, dir_type: &str) -> (r: String)
        ensures
            r@ == directory_name(*self, dir_type@),
    {
        if str_eq(dir_type, "deep_exploration") {
            let name: &str = match self {
                TargetLanguage::Chinese => "4、深入探索",
                TargetLanguage::English => "4.Deep-Exploration",
                TargetLanguage::Japanese => "4-詳細探索",
                TargetLanguage::Korean => "4-심층-탐색",
                TargetLanguage::German => "4-Tiefere-Erkundung",
                TargetLanguage::French => "4-Exploration-Approfondie",
                TargetLanguage::Russian => "4-Глубокое-Исследование",
                TargetLanguage::Vietnamese => "4-Khám-phá-chi-tiết",
            };
            name.to_owned()
        } else {
            dir_type.to_owned()
        }
    }

    /// Get document filename
    pub fn get_doc_filename(&self, doc_type: &str) -> (r: String)
        ensures
            r@ == doc_filename(*self, doc_type@),
    {
        if str_eq(doc_type, "overview") {
            let name: &str = match self {
                TargetLanguage::Chinese => "1、项目概述.md",
                TargetLanguage::English => "1.Overview.md",
                TargetLanguage::Japanese => "1-プロジェクト概要.md",
                TargetLanguage::Korean => "1-프로젝트-개요.md",
                TargetLanguage::German => "1-Projektübersicht.md",
                TargetLanguage::French => "1-Aperçu-du-Projet.md",
                TargetLanguage::Russian => "1-Обзор-Проекта.md",
                TargetLanguage::Vietnamese => "1-Tổng-quan-Dự-án.md",
            };
            name.to_owned()
        } else if str_eq(doc_type, "architecture") {
            let name: &str = match self {
                TargetLanguage::Chinese => "2、架构概览.md",
                TargetLanguage::English => "2.Architecture.md",
                TargetLanguage::Japanese => "2-アーキテクチャ概要.md",
                TargetLanguage::Korean => "2-아키텍처-개요.md",
                TargetLanguage::German => "2-Architekturübersicht.md",
                TargetLanguage::French => "2-Aperçu-de-l'Architecture.md",
                TargetLanguage::Russian => "2-Обзор-Архитектуры.md",
                TargetLanguage::Vietnamese => "2-Kiến-trúc.md",
            };
            name.to_owned()
        } else if str_eq(doc_type, "workflow") {
            let name: &str = match self {
                TargetLanguage::Chinese => "3、工作流程.md",
                TargetLanguage::English => "3.Workflow.md",
                TargetLanguage::Japanese => "3-ワークフロー.md",
                TargetLanguage::Korean => "3-워크플로우.md",
                TargetLanguage::German => "3-Arbeitsablauf.md",
                TargetLanguage::French => "3-Flux-de-Travail.md",
                TargetLanguage::Russian => "3-Рабочий-Процесс.md",
                TargetLanguage::Vietnamese => "3-Luồng-xử-lý.md",
            };
            name.to_owned()
        } else if str_eq(doc_type, "boundary") {
            let name: &str = match self {
                TargetLanguage::Chinese => "5、边界调用.md",
                TargetLanguage::English => "5.Boundary-Interfaces.md",
                TargetLanguage::Japanese => "5-境界インターフェース.md",
                TargetLanguage::Korean => "5-경계-인터페이스.md",
                TargetLanguage::German => "5-Grenzschnittstellen.md",
                TargetLanguage::French => "5-Interfaces-de-Frontière.md",
                TargetLanguage::Russian => "5-Граничные-Интерфейсы.md",
                TargetLanguage::Vietnamese => "5-Lớp-giao-tiếp-biên.md",
            };
            name.to_owned()
        } else if str_eq(doc_type, "database") {
            let name: &str = match self {
                TargetLanguage::Chinese => "6、数据库概览.md",
                TargetLanguage::English => "6.Database-Overview.md",
                TargetLanguage::Japanese => "6-データベース概要.md",
                TargetLanguage::Korean => "6-데이터베이스-개요.md",
                TargetLanguage::German => "6-Datenbankübersicht.md",
                TargetLanguage::French => "6-Aperçu-Base-de-Données.md",
                TargetLanguage::Russian => "6-Обзор-Базы-Данных.md",
                TargetLanguage::Vietnamese => "6-Tổng-quan-Cơ-sở-Dữ-liệu.md",
            };
            name.to_owned()
        } else {
            concat_str(doc_type, ".md")
        }
    }

    /// English label for the target language, used in console logs only
    pub fn english_label(&self) -> (r: &'static str)
        ensures
            r@ == language_english_label(*self),
    {
        match self {
            TargetLanguage::Chinese => "Chinese",
            TargetLanguage::English => "English",
            TargetLanguage::Japanese => "Japanese",
            TargetLanguage::Korean => "Korean",
            TargetLanguage::German => "German",
            TargetLanguage::French => "French",
            TargetLanguage::Russian => "Russian",
            TargetLanguage::Vietnamese => "Vietnamese",
        }
    }

    // ===== Console Messages (always English) =====

    /// Warning: Cannot read config file, using default config
    pub fn msg_config_read_error(&self) -> (r: &'static str)
        ensures
            r@ == "⚠️ Warning: Cannot read config file {:?}, using default config"@,
    {
        "⚠️ Warning: Cannot read config file {:?}, using default config"
    }

    /// Warning: Unknown provider, using default provider
    pub fn msg_unknown_provider(&self) -> (r: &'static str)
        ensures
            r@ == "⚠️ Warning: Unknown provider: {}, using default provider"@,
    {
        "⚠️ Warning: Unknown provider: {}, using default provider"
    }

    /// Warning: Unknown target language, using default language (English)
    pub fn msg_unknown_language(&self) -> (r: &'static str)
        ensures
            r@ == "⚠️ Warning: Unknown target language: {}, using default language (English)"@,
    {
        "⚠️ Warning: Unknown target language: {}, using default language (English)"
    }

    /// Using cached AI analysis result
    pub fn msg_cache_hit(&self) -> (r: &'static str)
        ensures
            r@ == "   ✅ Using cached AI analysis result: {}"@,
    {
        "   ✅ Using cached AI analysis result: {}"
    }

    /// Performing AI analysis — {} = current, {} = total, {} = path
    pub fn msg_ai_analyzing(&self) -> (r: &'static str)
        ensures
            r@ == "   🤖 Performing AI analysis [{}/{}]: {}"@,
    {
        "   🤖 Performing AI analysis [{}/{}]: {}"
    }

    /// Cache miss - need AI inference
    pub fn msg_cache_miss(&self) -> (r: &'static str)
        ensures
            r@ == "   ⌛ Cache miss [{}] - AI inference required"@,
    {
        "   ⌛ Cache miss [{}] - AI inference required"
    }

    /// Cache write - result cached
    pub fn msg_cache_write(&self) -> (r: &'static str)
        ensures
            r@ == "   💾 Cache write [{}] - Result cached"@,
    {
        "   💾 Cache write [{}] - Result cached"
    }

    /// Cache error
    pub fn msg_cache_error(&self) -> (r: &'static str)
        ensures
            r@ == "   ❌ Cache error [{}]: {}"@,
    {
        "   ❌ Cache error [{}]: {}"
    }

    /// Using cached compression result
    pub fn msg_cache_compression_hit(&self) -> (r: &'static str)
        ensures
            r@ == "   💾 Using cached compression result [{}]"@,
    {
        "   💾 Using cached compression result [{}]"
    }

    /// Cannot read file
    pub fn msg_cannot_read_file(&self) -> (r: &'static str)
        ensures
            r@ == "Cannot read file: {}"@,
    {
        "Cannot read file: {}"
    }

    /// Agent type display names (always English, used in console logs)
    pub fn msg_agent_type(&self, agent_type: &str) -> (r: String)
        ensures
            r@ == agent_type_name(agent_type@),
    {
        if str_eq(agent_type, "system_context") {
            "System Context Research Report".to_owned()
        } else if str_eq(agent_type, "domain_modules") {
            "Domain Modules Research Report".to_owned()
        } else if str_eq(agent_type, "architecture") {
            "System Architecture Research Report".to_owned()
        } else if str_eq(agent_type, "workflow") {
            "Workflow Research Report".to_owned()
        } else if str_eq(agent_type, "key_modules") {
            "Key Modules and Components Research Report".to_owned()
        } else if str_eq(agent_type, "boundary") {
            "Boundary Interface Research Report".to_owned()
        } else if str_eq(agent_type, "database") {
            "Database Overview Research Report".to_owned()
        } else {
            agent_type.to_owned()
        }
    }

    /// Warning: Document content not found
    pub fn msg_doc_not_found(&self) -> (r: &'static str)
        ensures
            r@ == "⚠️ Warning: Document content not found, key: {}"@,
    {
        "⚠️ Warning: Document content not found, key: {}"
    }

    /// Mermaid fixer error
    pub fn msg_mermaid_error(&self) -> (r: &'static str)
        ensures
            r@ == "⚠️ Error occurred during mermaid diagram repair: {}"@,
    {
        "⚠️ Error occurred during mermaid diagram repair: {}"
    }

    /// Chromium unavailable for mermaid fixing
    pub fn msg_mermaid_chromium_unavailable(&self) -> (r: &'static str)
        ensures
            r@ == "⚠️ Chromium/Chrome not detected, skipping mermaid diagram fixing"@,
    {
        "⚠️ Chromium/Chrome not detected, skipping mermaid diagram fixing"
    }

    /// Summary reasoning failed
    pub fn msg_summary_reasoning_failed(&self) -> (r: &'static str)
        ensures
            r@ == "⚠️  Summary reasoning failed, returning original partial result...{}"@,
    {
        "⚠️  Summary reasoning failed, returning original partial result...{}"
    }

    /// Domain analysis failed
    pub fn msg_domain_analysis_failed(&self) -> (r: &'static str)
        ensures
            r@ == "⚠️ Domain module analysis: {} analysis failed: {}"@,
    {
        "⚠️ Domain module analysis: {} analysis failed: {}"
    }

    /// No code path for domain
    pub fn msg_no_code_path_for_domain(&self) -> (r: &'static str)
        ensures
            r@ == "⚠️ Domain '{}' has no associated code paths"@,
    {
        "⚠️ Domain '{}' has no associated code paths"
    }

}

} // verus!
