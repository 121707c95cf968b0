//! Labels of the tray menu in each interface language.
use vstd::prelude::*;
use crate::lang::{lang_index, language_index};

verus! {

/// Label `slot` (0 show window, 1 settings, 2 quit) of the tray menu in the
/// language of `row` (in the order of `lang_index`).
pub open spec fn menu_cell(row: int, slot: int) -> Seq<char> {
    if row == 0 {
        if slot == 0 {
            "Pencereyi göster"@
        } else if slot == 1 {
            "Ayarlar"@
        } else {
            "Çıkış"@
        }
    } else if row == 1 {
        if slot == 0 {
            "Show window"@
        } else if slot == 1 {
            "Settings"@
        } else {
            "Quit"@
        }
    } else if row == 2 {
        if slot == 0 {
            "Fenster zeigen"@
        } else if slot == 1 {
            "Einstellungen"@
        } else {
            "Beenden"@
        }
    } else if row == 3 {
        if slot == 0 {
            "Afficher"@
        } else if slot == 1 {
            "Réglages"@
        } else {
            "Quitter"@
        }
    } else if row == 4 {
        if slot == 0 {
            "Mostrar ventana"@
        } else if slot == 1 {
            "Ajustes"@
        } else {
            "Salir"@
        }
    } else if row == 5 {
        if slot == 0 {
            "Mostra finestra"@
        } else if slot == 1 {
            "Impostazioni"@
        } else {
            "Esci"@
        }
    } else if row == 6 {
        if slot == 0 {
            "Mostrar janela"@
        } else if slot == 1 {
            "Definições"@
        } else {
            "Sair"@
        }
    } else if row == 7 {
        if slot == 0 {
            "Показать окно"@
        } else if slot == 1 {
            "Настройки"@
        } else {
            "Выход"@
        }
    } else if row == 8 {
        if slot == 0 {
            "إظهار النافذة"@
        } else if slot == 1 {
            "الإعدادات"@
        } else {
            "خروج"@
        }
    } else if row == 9 {
        if slot == 0 {
            "ウィンドウを表示"@
        } else if slot == 1 {
            "設定"@
        } else {
            "終了"@
        }
    } else if row == 10 {
        if slot == 0 {
            "显示窗口"@
        } else if slot == 1 {
            "设置"@
        } else {
            "退出"@
        }
    } else {
        if slot == 0 {
            "창 표시"@
        } else if slot == 1 {
            "설정"@
        } else {
            "종료"@
        }
    }
}

fn menu_text(row: usize, slot: usize) -> (r: &'static str)
    requires
        row < 12,
        slot < 3,
    ensures
        r@ == menu_cell(row as int, slot as int),
{
    if row == 0 {
        if slot == 0 {
            "Pencereyi göster"
        } else if slot == 1 {
            "Ayarlar"
        } else {
            "Çıkış"
        }
    } else if row == 1 {
        if slot == 0 {
            "Show window"
        } else if slot == 1 {
            "Settings"
        } else {
            "Quit"
        }
    } else if row == 2 {
        if slot == 0 {
            "Fenster zeigen"
        } else if slot == 1 {
            "Einstellungen"
        } else {
            "Beenden"
        }
    } else if row == 3 {
        if slot == 0 {
            "Afficher"
        } else if slot == 1 {
            "Réglages"
        } else {
            "Quitter"
        }
    } else if row == 4 {
        if slot == 0 {
            "Mostrar ventana"
        } else if slot == 1 {
            "Ajustes"
        } else {
            "Salir"
        }
    } else if row == 5 {
        if slot == 0 {
            "Mostra finestra"
        } else if slot == 1 {
            "Impostazioni"
        } else {
            "Esci"
        }
    } else if row == 6 {
        if slot == 0 {
            "Mostrar janela"
        } else if slot == 1 {
            "Definições"
        } else {
            "Sair"
        }
    } else if row == 7 {
        if slot == 0 {
            "Показать окно"
        } else if slot == 1 {
            "Настройки"
        } else {
            "Выход"
        }
    } else if row == 8 {
        if slot == 0 {
            "إظهار النافذة"
        } else if slot == 1 {
            "الإعدادات"
        } else {
            "خروج"
        }
    } else if row == 9 {
        if slot == 0 {
            "ウィンドウを表示"
        } else if slot == 1 {
            "設定"
        } else {
            "終了"
        }
    } else if row == 10 {
        if slot == 0 {
            "显示窗口"
        } else if slot == 1 {
            "设置"
        } else {
            "退出"
        }
    } else {
        if slot == 0 {
            "창 표시"
        } else if slot == 1 {
            "설정"
        } else {
            "종료"
        }
    }
}

/// Row of the menu labels for a language: its own, or Turkish for any other
/// text.
pub open spec fn menu_row(lang: Seq<char>) -> int {
    if lang_index(lang) == 12 {
        0
    } else {
        lang_index(lang) as int
    }
}

/// The three labels of the tray menu (show window, settings, quit) in the
/// interface language; Turkish for an unknown language.
pub fn menu_labels(lang: &str) -> (r: (&'static str, &'static str, &'static str))
    ensures
        r.0@ == menu_cell(menu_row(lang@), 0),
        r.1@ == menu_cell(menu_row(lang@), 1),
        r.2@ == menu_cell(menu_row(lang@), 2),
{
    let i = language_index(lang);
    let row = if i == 12 {
        0
    } else {
        i
    };
    (menu_text(row, 0), menu_text(row, 1), menu_text(row, 2))
}

} // verus!
