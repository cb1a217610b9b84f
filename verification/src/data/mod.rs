//! Catalog data: the kinds of entries, the catalogs they come from, sort
//! orders, and the entry record itself.

use vstd::prelude::*;
use crate::strings::{
    ascii_lower, chars_eq_ignore_ascii_case, chars_of, eq_ignore_ascii_case, str_eq_ignore_ascii_case, trim, trim_chars,
};

pub mod format;
pub mod api;
pub mod cache_manager;
pub mod settings;
pub mod db;
pub mod record;

verus! {

/// What kind of homebrew or game an entry is.
#[derive(Clone, Copy, Debug, PartialEq, Eq, Structural)]
pub enum Category {
    Emulator,
    Original,
    PsVitaGame,
    Ps1Game,
    PspGame,
    Plugin,
    Port,
    Tool,
    Utility,
    Other,
}

/// The category an API category name (and entry type) stands for: any
/// `plugin` type is a plugin; otherwise the trimmed name is matched without
/// regard to ASCII case (the names are ASCII without a `k`, so Unicode lower
/// casing agrees with ASCII lower casing on every name that can match).
pub open spec fn category_from_api(category: Seq<char>, kind: Seq<char>) -> Category {
    let name = trim(category);
    if eq_ignore_ascii_case(kind, "plugin"@) {
        Category::Plugin
    } else if eq_ignore_ascii_case(name, "emulator"@) || eq_ignore_ascii_case(name, "emulators"@) {
        Category::Emulator
    } else if eq_ignore_ascii_case(name, "original"@) {
        Category::Original
    } else if eq_ignore_ascii_case(name, "ps vita game"@) {
        Category::PsVitaGame
    } else if eq_ignore_ascii_case(name, "ps1 game"@) {
        Category::Ps1Game
    } else if eq_ignore_ascii_case(name, "psp game"@) {
        Category::PspGame
    } else if eq_ignore_ascii_case(name, "plugin"@) || eq_ignore_ascii_case(name, "plugins"@) {
        Category::Plugin
    } else if eq_ignore_ascii_case(name, "port"@) || eq_ignore_ascii_case(name, "ports"@) {
        Category::Port
    } else if eq_ignore_ascii_case(name, "tool"@) || eq_ignore_ascii_case(name, "tools"@) {
        Category::Tool
    } else if eq_ignore_ascii_case(name, "utility"@) || eq_ignore_ascii_case(name, "utilities"@) {
        Category::Utility
    } else {
        Category::Other
    }
}

fn name_is(name: &Vec<char>, word: &str) -> (r: bool)
    ensures
        r == eq_ignore_ascii_case(name@, word@),
{
    chars_eq_ignore_ascii_case(name, &chars_of(word))
}

proof fn lemma_ic_same(x: Seq<char>, a: Seq<char>, b: Seq<char>)
    requires
        eq_ignore_ascii_case(x, a),
        eq_ignore_ascii_case(x, b),
    ensures
        a.len() == b.len(),
        forall|i: int| 0 <= i < a.len() ==> ascii_lower(a[i]) == ascii_lower(b[i]),
{
    assert forall|i: int| 0 <= i < a.len() implies ascii_lower(a[i]) == ascii_lower(b[i]) by {
        assert(ascii_lower(x[i]) == ascii_lower(a[i]));
        assert(ascii_lower(x[i]) == ascii_lower(b[i]));
    }
}

/// Every category name the API uses maps to its own category, whatever its
/// letter case and surrounding spaces (`Original` is `Original`, `Ports` is
/// `Port`, ...), and any record of the `plugin` type is a plugin.
pub proof fn api_category_names_map_to_their_categories(category: Seq<char>, kind: Seq<char>)
    ensures
        eq_ignore_ascii_case(kind, "plugin"@) ==> category_from_api(category, kind) == Category::Plugin,
        !eq_ignore_ascii_case(kind, "plugin"@) && eq_ignore_ascii_case(trim(category), "emulator"@) ==> category_from_api(category, kind) == Category::Emulator,
        !eq_ignore_ascii_case(kind, "plugin"@) && eq_ignore_ascii_case(trim(category), "emulators"@) ==> category_from_api(category, kind) == Category::Emulator,
        !eq_ignore_ascii_case(kind, "plugin"@) && eq_ignore_ascii_case(trim(category), "original"@) ==> category_from_api(category, kind) == Category::Original,
        !eq_ignore_ascii_case(kind, "plugin"@) && eq_ignore_ascii_case(trim(category), "ps vita game"@) ==> category_from_api(category, kind) == Category::PsVitaGame,
        !eq_ignore_ascii_case(kind, "plugin"@) && eq_ignore_ascii_case(trim(category), "ps1 game"@) ==> category_from_api(category, kind) == Category::Ps1Game,
        !eq_ignore_ascii_case(kind, "plugin"@) && eq_ignore_ascii_case(trim(category), "psp game"@) ==> category_from_api(category, kind) == Category::PspGame,
        !eq_ignore_ascii_case(kind, "plugin"@) && eq_ignore_ascii_case(trim(category), "plugin"@) ==> category_from_api(category, kind) == Category::Plugin,
        !eq_ignore_ascii_case(kind, "plugin"@) && eq_ignore_ascii_case(trim(category), "plugins"@) ==> category_from_api(category, kind) == Category::Plugin,
        !eq_ignore_ascii_case(kind, "plugin"@) && eq_ignore_ascii_case(trim(category), "port"@) ==> category_from_api(category, kind) == Category::Port,
        !eq_ignore_ascii_case(kind, "plugin"@) && eq_ignore_ascii_case(trim(category), "ports"@) ==> category_from_api(category, kind) == Category::Port,
        !eq_ignore_ascii_case(kind, "plugin"@) && eq_ignore_ascii_case(trim(category), "tool"@) ==> category_from_api(category, kind) == Category::Tool,
        !eq_ignore_ascii_case(kind, "plugin"@) && eq_ignore_ascii_case(trim(category), "tools"@) ==> category_from_api(category, kind) == Category::Tool,
        !eq_ignore_ascii_case(kind, "plugin"@) && eq_ignore_ascii_case(trim(category), "utility"@) ==> category_from_api(category, kind) == Category::Utility,
        !eq_ignore_ascii_case(kind, "plugin"@) && eq_ignore_ascii_case(trim(category), "utilities"@) ==> category_from_api(category, kind) == Category::Utility,
{
    reveal_strlit("emulator");
    reveal_strlit("emulators");
    reveal_strlit("original");
    reveal_strlit("ps vita game");
    reveal_strlit("ps1 game");
    reveal_strlit("psp game");
    reveal_strlit("plugin");
    reveal_strlit("plugins");
    reveal_strlit("port");
    reveal_strlit("ports");
    reveal_strlit("tool");
    reveal_strlit("tools");
    reveal_strlit("utility");
    reveal_strlit("utilities");
    let n = trim(category);
    if eq_ignore_ascii_case(n, "emulators"@) {
            if eq_ignore_ascii_case(n, "emulator"@) {
                lemma_ic_same(n, "emulators"@, "emulator"@);
                assert("emulators"@.len() == 9 && "emulator"@.len() == 8);
            }
    }
    if eq_ignore_ascii_case(n, "original"@) {
            if eq_ignore_ascii_case(n, "emulator"@) {
                lemma_ic_same(n, "original"@, "emulator"@);
                assert(ascii_lower("original"@[0]) != ascii_lower("emulator"@[0]));
            }
            if eq_ignore_ascii_case(n, "emulators"@) {
                lemma_ic_same(n, "original"@, "emulators"@);
                assert("original"@.len() == 8 && "emulators"@.len() == 9);
            }
    }
    if eq_ignore_ascii_case(n, "ps vita game"@) {
            if eq_ignore_ascii_case(n, "emulator"@) {
                lemma_ic_same(n, "ps vita game"@, "emulator"@);
                assert("ps vita game"@.len() == 12 && "emulator"@.len() == 8);
            }
            if eq_ignore_ascii_case(n, "emulators"@) {
                lemma_ic_same(n, "ps vita game"@, "emulators"@);
                assert("ps vita game"@.len() == 12 && "emulators"@.len() == 9);
            }
            if eq_ignore_ascii_case(n, "original"@) {
                lemma_ic_same(n, "ps vita game"@, "original"@);
                assert("ps vita game"@.len() == 12 && "original"@.len() == 8);
            }
    }
    if eq_ignore_ascii_case(n, "ps1 game"@) {
            if eq_ignore_ascii_case(n, "emulator"@) {
                lemma_ic_same(n, "ps1 game"@, "emulator"@);
                assert(ascii_lower("ps1 game"@[0]) != ascii_lower("emulator"@[0]));
            }
            if eq_ignore_ascii_case(n, "emulators"@) {
                lemma_ic_same(n, "ps1 game"@, "emulators"@);
                assert("ps1 game"@.len() == 8 && "emulators"@.len() == 9);
            }
            if eq_ignore_ascii_case(n, "original"@) {
                lemma_ic_same(n, "ps1 game"@, "original"@);
                assert(ascii_lower("ps1 game"@[0]) != ascii_lower("original"@[0]));
            }
            if eq_ignore_ascii_case(n, "ps vita game"@) {
                lemma_ic_same(n, "ps1 game"@, "ps vita game"@);
                assert("ps1 game"@.len() == 8 && "ps vita game"@.len() == 12);
            }
    }
    if eq_ignore_ascii_case(n, "psp game"@) {
            if eq_ignore_ascii_case(n, "emulator"@) {
                lemma_ic_same(n, "psp game"@, "emulator"@);
                assert(ascii_lower("psp game"@[0]) != ascii_lower("emulator"@[0]));
            }
            if eq_ignore_ascii_case(n, "emulators"@) {
                lemma_ic_same(n, "psp game"@, "emulators"@);
                assert("psp game"@.len() == 8 && "emulators"@.len() == 9);
            }
            if eq_ignore_ascii_case(n, "original"@) {
                lemma_ic_same(n, "psp game"@, "original"@);
                assert(ascii_lower("psp game"@[0]) != ascii_lower("original"@[0]));
            }
            if eq_ignore_ascii_case(n, "ps vita game"@) {
                lemma_ic_same(n, "psp game"@, "ps vita game"@);
                assert("psp game"@.len() == 8 && "ps vita game"@.len() == 12);
            }
            if eq_ignore_ascii_case(n, "ps1 game"@) {
                lemma_ic_same(n, "psp game"@, "ps1 game"@);
                assert(ascii_lower("psp game"@[2]) != ascii_lower("ps1 game"@[2]));
            }
    }
    if eq_ignore_ascii_case(n, "plugin"@) {
            if eq_ignore_ascii_case(n, "emulator"@) {
                lemma_ic_same(n, "plugin"@, "emulator"@);
                assert("plugin"@.len() == 6 && "emulator"@.len() == 8);
            }
            if eq_ignore_ascii_case(n, "emulators"@) {
                lemma_ic_same(n, "plugin"@, "emulators"@);
                assert("plugin"@.len() == 6 && "emulators"@.len() == 9);
            }
            if eq_ignore_ascii_case(n, "original"@) {
                lemma_ic_same(n, "plugin"@, "original"@);
                assert("plugin"@.len() == 6 && "original"@.len() == 8);
            }
            if eq_ignore_ascii_case(n, "ps vita game"@) {
                lemma_ic_same(n, "plugin"@, "ps vita game"@);
                assert("plugin"@.len() == 6 && "ps vita game"@.len() == 12);
            }
            if eq_ignore_ascii_case(n, "ps1 game"@) {
                lemma_ic_same(n, "plugin"@, "ps1 game"@);
                assert("plugin"@.len() == 6 && "ps1 game"@.len() == 8);
            }
            if eq_ignore_ascii_case(n, "psp game"@) {
                lemma_ic_same(n, "plugin"@, "psp game"@);
                assert("plugin"@.len() == 6 && "psp game"@.len() == 8);
            }
    }
    if eq_ignore_ascii_case(n, "plugins"@) {
            if eq_ignore_ascii_case(n, "emulator"@) {
                lemma_ic_same(n, "plugins"@, "emulator"@);
                assert("plugins"@.len() == 7 && "emulator"@.len() == 8);
            }
            if eq_ignore_ascii_case(n, "emulators"@) {
                lemma_ic_same(n, "plugins"@, "emulators"@);
                assert("plugins"@.len() == 7 && "emulators"@.len() == 9);
            }
            if eq_ignore_ascii_case(n, "original"@) {
                lemma_ic_same(n, "plugins"@, "original"@);
                assert("plugins"@.len() == 7 && "original"@.len() == 8);
            }
            if eq_ignore_ascii_case(n, "ps vita game"@) {
                lemma_ic_same(n, "plugins"@, "ps vita game"@);
                assert("plugins"@.len() == 7 && "ps vita game"@.len() == 12);
            }
            if eq_ignore_ascii_case(n, "ps1 game"@) {
                lemma_ic_same(n, "plugins"@, "ps1 game"@);
                assert("plugins"@.len() == 7 && "ps1 game"@.len() == 8);
            }
            if eq_ignore_ascii_case(n, "psp game"@) {
                lemma_ic_same(n, "plugins"@, "psp game"@);
                assert("plugins"@.len() == 7 && "psp game"@.len() == 8);
            }
            if eq_ignore_ascii_case(n, "plugin"@) {
                lemma_ic_same(n, "plugins"@, "plugin"@);
                assert("plugins"@.len() == 7 && "plugin"@.len() == 6);
            }
    }
    if eq_ignore_ascii_case(n, "port"@) {
            if eq_ignore_ascii_case(n, "emulator"@) {
                lemma_ic_same(n, "port"@, "emulator"@);
                assert("port"@.len() == 4 && "emulator"@.len() == 8);
            }
            if eq_ignore_ascii_case(n, "emulators"@) {
                lemma_ic_same(n, "port"@, "emulators"@);
                assert("port"@.len() == 4 && "emulators"@.len() == 9);
            }
            if eq_ignore_ascii_case(n, "original"@) {
                lemma_ic_same(n, "port"@, "original"@);
                assert("port"@.len() == 4 && "original"@.len() == 8);
            }
            if eq_ignore_ascii_case(n, "ps vita game"@) {
                lemma_ic_same(n, "port"@, "ps vita game"@);
                assert("port"@.len() == 4 && "ps vita game"@.len() == 12);
            }
            if eq_ignore_ascii_case(n, "ps1 game"@) {
                lemma_ic_same(n, "port"@, "ps1 game"@);
                assert("port"@.len() == 4 && "ps1 game"@.len() == 8);
            }
            if eq_ignore_ascii_case(n, "psp game"@) {
                lemma_ic_same(n, "port"@, "psp game"@);
                assert("port"@.len() == 4 && "psp game"@.len() == 8);
            }
            if eq_ignore_ascii_case(n, "plugin"@) {
                lemma_ic_same(n, "port"@, "plugin"@);
                assert("port"@.len() == 4 && "plugin"@.len() == 6);
            }
            if eq_ignore_ascii_case(n, "plugins"@) {
                lemma_ic_same(n, "port"@, "plugins"@);
                assert("port"@.len() == 4 && "plugins"@.len() == 7);
            }
    }
    if eq_ignore_ascii_case(n, "ports"@) {
            if eq_ignore_ascii_case(n, "emulator"@) {
                lemma_ic_same(n, "ports"@, "emulator"@);
                assert("ports"@.len() == 5 && "emulator"@.len() == 8);
            }
            if eq_ignore_ascii_case(n, "emulators"@) {
                lemma_ic_same(n, "ports"@, "emulators"@);
                assert("ports"@.len() == 5 && "emulators"@.len() == 9);
            }
            if eq_ignore_ascii_case(n, "original"@) {
                lemma_ic_same(n, "ports"@, "original"@);
                assert("ports"@.len() == 5 && "original"@.len() == 8);
            }
            if eq_ignore_ascii_case(n, "ps vita game"@) {
                lemma_ic_same(n, "ports"@, "ps vita game"@);
                assert("ports"@.len() == 5 && "ps vita game"@.len() == 12);
            }
            if eq_ignore_ascii_case(n, "ps1 game"@) {
                lemma_ic_same(n, "ports"@, "ps1 game"@);
                assert("ports"@.len() == 5 && "ps1 game"@.len() == 8);
            }
            if eq_ignore_ascii_case(n, "psp game"@) {
                lemma_ic_same(n, "ports"@, "psp game"@);
                assert("ports"@.len() == 5 && "psp game"@.len() == 8);
            }
            if eq_ignore_ascii_case(n, "plugin"@) {
                lemma_ic_same(n, "ports"@, "plugin"@);
                assert("ports"@.len() == 5 && "plugin"@.len() == 6);
            }
            if eq_ignore_ascii_case(n, "plugins"@) {
                lemma_ic_same(n, "ports"@, "plugins"@);
                assert("ports"@.len() == 5 && "plugins"@.len() == 7);
            }
            if eq_ignore_ascii_case(n, "port"@) {
                lemma_ic_same(n, "ports"@, "port"@);
                assert("ports"@.len() == 5 && "port"@.len() == 4);
            }
    }
    if eq_ignore_ascii_case(n, "tool"@) {
            if eq_ignore_ascii_case(n, "emulator"@) {
                lemma_ic_same(n, "tool"@, "emulator"@);
                assert("tool"@.len() == 4 && "emulator"@.len() == 8);
            }
            if eq_ignore_ascii_case(n, "emulators"@) {
                lemma_ic_same(n, "tool"@, "emulators"@);
                assert("tool"@.len() == 4 && "emulators"@.len() == 9);
            }
            if eq_ignore_ascii_case(n, "original"@) {
                lemma_ic_same(n, "tool"@, "original"@);
                assert("tool"@.len() == 4 && "original"@.len() == 8);
            }
            if eq_ignore_ascii_case(n, "ps vita game"@) {
                lemma_ic_same(n, "tool"@, "ps vita game"@);
                assert("tool"@.len() == 4 && "ps vita game"@.len() == 12);
            }
            if eq_ignore_ascii_case(n, "ps1 game"@) {
                lemma_ic_same(n, "tool"@, "ps1 game"@);
                assert("tool"@.len() == 4 && "ps1 game"@.len() == 8);
            }
            if eq_ignore_ascii_case(n, "psp game"@) {
                lemma_ic_same(n, "tool"@, "psp game"@);
                assert("tool"@.len() == 4 && "psp game"@.len() == 8);
            }
            if eq_ignore_ascii_case(n, "plugin"@) {
                lemma_ic_same(n, "tool"@, "plugin"@);
                assert("tool"@.len() == 4 && "plugin"@.len() == 6);
            }
            if eq_ignore_ascii_case(n, "plugins"@) {
                lemma_ic_same(n, "tool"@, "plugins"@);
                assert("tool"@.len() == 4 && "plugins"@.len() == 7);
            }
            if eq_ignore_ascii_case(n, "port"@) {
                lemma_ic_same(n, "tool"@, "port"@);
                assert(ascii_lower("tool"@[0]) != ascii_lower("port"@[0]));
            }
            if eq_ignore_ascii_case(n, "ports"@) {
                lemma_ic_same(n, "tool"@, "ports"@);
                assert("tool"@.len() == 4 && "ports"@.len() == 5);
            }
    }
    if eq_ignore_ascii_case(n, "tools"@) {
            if eq_ignore_ascii_case(n, "emulator"@) {
                lemma_ic_same(n, "tools"@, "emulator"@);
                assert("tools"@.len() == 5 && "emulator"@.len() == 8);
            }
            if eq_ignore_ascii_case(n, "emulators"@) {
                lemma_ic_same(n, "tools"@, "emulators"@);
                assert("tools"@.len() == 5 && "emulators"@.len() == 9);
            }
            if eq_ignore_ascii_case(n, "original"@) {
                lemma_ic_same(n, "tools"@, "original"@);
                assert("tools"@.len() == 5 && "original"@.len() == 8);
            }
            if eq_ignore_ascii_case(n, "ps vita game"@) {
                lemma_ic_same(n, "tools"@, "ps vita game"@);
                assert("tools"@.len() == 5 && "ps vita game"@.len() == 12);
            }
            if eq_ignore_ascii_case(n, "ps1 game"@) {
                lemma_ic_same(n, "tools"@, "ps1 game"@);
                assert("tools"@.len() == 5 && "ps1 game"@.len() == 8);
            }
            if eq_ignore_ascii_case(n, "psp game"@) {
                lemma_ic_same(n, "tools"@, "psp game"@);
                assert("tools"@.len() == 5 && "psp game"@.len() == 8);
            }
            if eq_ignore_ascii_case(n, "plugin"@) {
                lemma_ic_same(n, "tools"@, "plugin"@);
                assert("tools"@.len() == 5 && "plugin"@.len() == 6);
            }
            if eq_ignore_ascii_case(n, "plugins"@) {
                lemma_ic_same(n, "tools"@, "plugins"@);
                assert("tools"@.len() == 5 && "plugins"@.len() == 7);
            }
            if eq_ignore_ascii_case(n, "port"@) {
                lemma_ic_same(n, "tools"@, "port"@);
                assert("tools"@.len() == 5 && "port"@.len() == 4);
            }
            if eq_ignore_ascii_case(n, "ports"@) {
                lemma_ic_same(n, "tools"@, "ports"@);
                assert(ascii_lower("tools"@[0]) != ascii_lower("ports"@[0]));
            }
            if eq_ignore_ascii_case(n, "tool"@) {
                lemma_ic_same(n, "tools"@, "tool"@);
                assert("tools"@.len() == 5 && "tool"@.len() == 4);
            }
    }
    if eq_ignore_ascii_case(n, "utility"@) {
            if eq_ignore_ascii_case(n, "emulator"@) {
                lemma_ic_same(n, "utility"@, "emulator"@);
                assert("utility"@.len() == 7 && "emulator"@.len() == 8);
            }
            if eq_ignore_ascii_case(n, "emulators"@) {
                lemma_ic_same(n, "utility"@, "emulators"@);
                assert("utility"@.len() == 7 && "emulators"@.len() == 9);
            }
            if eq_ignore_ascii_case(n, "original"@) {
                lemma_ic_same(n, "utility"@, "original"@);
                assert("utility"@.len() == 7 && "original"@.len() == 8);
            }
            if eq_ignore_ascii_case(n, "ps vita game"@) {
                lemma_ic_same(n, "utility"@, "ps vita game"@);
                assert("utility"@.len() == 7 && "ps vita game"@.len() == 12);
            }
            if eq_ignore_ascii_case(n, "ps1 game"@) {
                lemma_ic_same(n, "utility"@, "ps1 game"@);
                assert("utility"@.len() == 7 && "ps1 game"@.len() == 8);
            }
            if eq_ignore_ascii_case(n, "psp game"@) {
                lemma_ic_same(n, "utility"@, "psp game"@);
                assert("utility"@.len() == 7 && "psp game"@.len() == 8);
            }
            if eq_ignore_ascii_case(n, "plugin"@) {
                lemma_ic_same(n, "utility"@, "plugin"@);
                assert("utility"@.len() == 7 && "plugin"@.len() == 6);
            }
            if eq_ignore_ascii_case(n, "plugins"@) {
                lemma_ic_same(n, "utility"@, "plugins"@);
                assert(ascii_lower("utility"@[0]) != ascii_lower("plugins"@[0]));
            }
            if eq_ignore_ascii_case(n, "port"@) {
                lemma_ic_same(n, "utility"@, "port"@);
                assert("utility"@.len() == 7 && "port"@.len() == 4);
            }
            if eq_ignore_ascii_case(n, "ports"@) {
                lemma_ic_same(n, "utility"@, "ports"@);
                assert("utility"@.len() == 7 && "ports"@.len() == 5);
            }
            if eq_ignore_ascii_case(n, "tool"@) {
                lemma_ic_same(n, "utility"@, "tool"@);
                assert("utility"@.len() == 7 && "tool"@.len() == 4);
            }
            if eq_ignore_ascii_case(n, "tools"@) {
                lemma_ic_same(n, "utility"@, "tools"@);
                assert("utility"@.len() == 7 && "tools"@.len() == 5);
            }
    }
    if eq_ignore_ascii_case(n, "utilities"@) {
            if eq_ignore_ascii_case(n, "emulator"@) {
                lemma_ic_same(n, "utilities"@, "emulator"@);
                assert("utilities"@.len() == 9 && "emulator"@.len() == 8);
            }
            if eq_ignore_ascii_case(n, "emulators"@) {
                lemma_ic_same(n, "utilities"@, "emulators"@);
                assert(ascii_lower("utilities"@[0]) != ascii_lower("emulators"@[0]));
            }
            if eq_ignore_ascii_case(n, "original"@) {
                lemma_ic_same(n, "utilities"@, "original"@);
                assert("utilities"@.len() == 9 && "original"@.len() == 8);
            }
            if eq_ignore_ascii_case(n, "ps vita game"@) {
                lemma_ic_same(n, "utilities"@, "ps vita game"@);
                assert("utilities"@.len() == 9 && "ps vita game"@.len() == 12);
            }
            if eq_ignore_ascii_case(n, "ps1 game"@) {
                lemma_ic_same(n, "utilities"@, "ps1 game"@);
                assert("utilities"@.len() == 9 && "ps1 game"@.len() == 8);
            }
            if eq_ignore_ascii_case(n, "psp game"@) {
                lemma_ic_same(n, "utilities"@, "psp game"@);
                assert("utilities"@.len() == 9 && "psp game"@.len() == 8);
            }
            if eq_ignore_ascii_case(n, "plugin"@) {
                lemma_ic_same(n, "utilities"@, "plugin"@);
                assert("utilities"@.len() == 9 && "plugin"@.len() == 6);
            }
            if eq_ignore_ascii_case(n, "plugins"@) {
                lemma_ic_same(n, "utilities"@, "plugins"@);
                assert("utilities"@.len() == 9 && "plugins"@.len() == 7);
            }
            if eq_ignore_ascii_case(n, "port"@) {
                lemma_ic_same(n, "utilities"@, "port"@);
                assert("utilities"@.len() == 9 && "port"@.len() == 4);
            }
            if eq_ignore_ascii_case(n, "ports"@) {
                lemma_ic_same(n, "utilities"@, "ports"@);
                assert("utilities"@.len() == 9 && "ports"@.len() == 5);
            }
            if eq_ignore_ascii_case(n, "tool"@) {
                lemma_ic_same(n, "utilities"@, "tool"@);
                assert("utilities"@.len() == 9 && "tool"@.len() == 4);
            }
            if eq_ignore_ascii_case(n, "tools"@) {
                lemma_ic_same(n, "utilities"@, "tools"@);
                assert("utilities"@.len() == 9 && "tools"@.len() == 5);
            }
            if eq_ignore_ascii_case(n, "utility"@) {
                lemma_ic_same(n, "utilities"@, "utility"@);
                assert("utilities"@.len() == 9 && "utility"@.len() == 7);
            }
    }
}

impl Category {
    /// The categories offered as filters, in the order they are shown.
    pub fn all() -> (r: Vec<Category>)
        ensures
            r@ == seq![Category::Emulator, Category::Original, Category::PsVitaGame, Category::Plugin, Category::Port,
                Category::Utility],
    {
        vec![Category::Emulator, Category::Original, Category::PsVitaGame, Category::Plugin, Category::Port, Category::Utility]
    }

    /// The upper-case badge text of the category.
    pub fn label_upper(self) -> (r: &'static str)
        ensures
            r@ == match self {
                Category::Emulator => "EMULATOR"@,
                Category::Original => "ORIGINAL"@,
                Category::PsVitaGame => "PS VITA GAME"@,
                Category::Ps1Game => "PS1 GAME"@,
                Category::PspGame => "PSP GAME"@,
                Category::Plugin => "PLUGIN"@,
                Category::Port => "PORT"@,
                Category::Tool => "TOOL"@,
                Category::Utility => "UTILITY"@,
                Category::Other => "OTHER"@,
            },
    {
        match self {
            Category::Emulator => "EMULATOR",
            Category::Original => "ORIGINAL",
            Category::PsVitaGame => "PS VITA GAME",
            Category::Ps1Game => "PS1 GAME",
            Category::PspGame => "PSP GAME",
            Category::Plugin => "PLUGIN",
            Category::Port => "PORT",
            Category::Tool => "TOOL",
            Category::Utility => "UTILITY",
            Category::Other => "OTHER",
        }
    }

    /// The category of an API entry from its category name and its type.
    pub fn from_api(category: &str, kind: &str) -> (r: Category)
        ensures
            r == category_from_api(category@, kind@),
    {
        if str_eq_ignore_ascii_case(kind, "plugin") {
            return Category::Plugin;
        }
        let name = trim_chars(&chars_of(category));
        if name_is(&name, "emulator") || name_is(&name, "emulators") {
            Category::Emulator
        } else if name_is(&name, "original") {
            Category::Original
        } else if name_is(&name, "ps vita game") {
            Category::PsVitaGame
        } else if name_is(&name, "ps1 game") {
            Category::Ps1Game
        } else if name_is(&name, "psp game") {
            Category::PspGame
        } else if name_is(&name, "plugin") || name_is(&name, "plugins") {
            Category::Plugin
        } else if name_is(&name, "port") || name_is(&name, "ports") {
            Category::Port
        } else if name_is(&name, "tool") || name_is(&name, "tools") {
            Category::Tool
        } else if name_is(&name, "utility") || name_is(&name, "utilities") {
            Category::Utility
        } else {
            Category::Other
        }
    }
}

/// The system an entry runs on, and whether it comes from the commercial (NPS) catalog.
#[derive(Clone, Copy, Debug, PartialEq, Eq, Structural)]
pub enum Platform {
    Vita,
    Psp,
    Plugin,
    NpsVita,
    NpsPsp,
    NpsPsx,
}

/// The platform an API entry type names; anything unknown is a Vita homebrew.
pub open spec fn platform_from_api_type(kind: Seq<char>) -> Platform {
    if kind == "psp_app"@ {
        Platform::Psp
    } else if kind == "plugin"@ {
        Platform::Plugin
    } else if kind == "psv_game"@ {
        Platform::NpsVita
    } else if kind == "psp_game"@ {
        Platform::NpsPsp
    } else if kind == "psx_game"@ {
        Platform::NpsPsx
    } else {
        Platform::Vita
    }
}

impl Platform {
    /// The default platform: a Vita homebrew.
    pub fn default_platform() -> (r: Platform)
        ensures
            r == Platform::Vita,
    {
        Platform::Vita
    }

    /// The long label of the platform.
    pub fn label(self) -> (r: &'static str)
        ensures
            r@ == match self {
                Platform::Vita => "VITA"@,
                Platform::Psp => "PSP"@,
                Platform::Plugin => "PLUGIN"@,
                Platform::NpsVita => "PS VITA (NPS)"@,
                Platform::NpsPsp => "PSP (NPS)"@,
                Platform::NpsPsx => "PS1 (NPS)"@,
            },
    {
        match self {
            Platform::Vita => "VITA",
            Platform::Psp => "PSP",
            Platform::Plugin => "PLUGIN",
            Platform::NpsVita => "PS VITA (NPS)",
            Platform::NpsPsp => "PSP (NPS)",
            Platform::NpsPsx => "PS1 (NPS)",
        }
    }

    /// The short badge label of the platform.
    pub fn label_short(self) -> (r: &'static str)
        ensures
            r@ == match self {
                Platform::Vita => "VITA"@,
                Platform::Psp => "PSP"@,
                Platform::Plugin => "PLUG"@,
                Platform::NpsVita => "PSV"@,
                Platform::NpsPsp => "PSP"@,
                Platform::NpsPsx => "PS1"@,
            },
    {
        match self {
            Platform::Vita => "VITA",
            Platform::Psp => "PSP",
            Platform::Plugin => "PLUG",
            Platform::NpsVita => "PSV",
            Platform::NpsPsp => "PSP",
            Platform::NpsPsx => "PS1",
        }
    }

    /// The platform of an API entry type (compared exactly).
    pub fn from_api_type(kind: &str) -> (r: Platform)
        ensures
            r == platform_from_api_type(kind@),
    {
        let k = chars_of(kind);
        if crate::strings::chars_eq(&k, &chars_of("psp_app")) {
            Platform::Psp
        } else if crate::strings::chars_eq(&k, &chars_of("plugin")) {
            Platform::Plugin
        } else if crate::strings::chars_eq(&k, &chars_of("psv_game")) {
            Platform::NpsVita
        } else if crate::strings::chars_eq(&k, &chars_of("psp_game")) {
            Platform::NpsPsp
        } else if crate::strings::chars_eq(&k, &chars_of("psx_game")) {
            Platform::NpsPsx
        } else {
            Platform::Vita
        }
    }

    /// Whether the entry comes from the NPS (commercial) catalog.
    pub fn is_nps(self) -> (r: bool)
        ensures
            r == (self == Platform::NpsVita || self == Platform::NpsPsp || self == Platform::NpsPsx),
    {
        match self {
            Platform::NpsVita | Platform::NpsPsp | Platform::NpsPsx => true,
            _ => false,
        }
    }

    /// Whether the entry is a commercial title (the NPS ones).
    pub fn is_commercial(self) -> (r: bool)
        ensures
            r == (self == Platform::NpsVita || self == Platform::NpsPsp || self == Platform::NpsPsx),
    {
        self.is_nps()
    }
}

/// The catalog an entry was listed in.
#[derive(Clone, Copy, Debug, PartialEq, Eq, Structural)]
pub enum SourceCatalog {
    VitaDb,
    VitaDbToo,
    Nps,
}

/// Whether an API catalog name refers to `source` (ignoring ASCII case).
pub open spec fn source_matches(source: SourceCatalog, name: Seq<char>) -> bool {
    match source {
        SourceCatalog::VitaDb => eq_ignore_ascii_case(name, "vitadb"@) || eq_ignore_ascii_case(name, "vitadb_official"@)
            || eq_ignore_ascii_case(name, "vitadb-official"@),
        SourceCatalog::VitaDbToo => eq_ignore_ascii_case(name, "vitadbtoo"@) || eq_ignore_ascii_case(name, "vitadb_too"@),
        SourceCatalog::Nps => eq_ignore_ascii_case(name, "nps"@),
    }
}

/// The first catalog (VitaDB, then VitaDBtoo, then NPS) that an API catalog name refers to.
pub open spec fn source_from_api(name: Seq<char>) -> Option<SourceCatalog> {
    if source_matches(SourceCatalog::VitaDb, name) {
        Some(SourceCatalog::VitaDb)
    } else if source_matches(SourceCatalog::VitaDbToo, name) {
        Some(SourceCatalog::VitaDbToo)
    } else if source_matches(SourceCatalog::Nps, name) {
        Some(SourceCatalog::Nps)
    } else {
        None
    }
}

impl SourceCatalog {
    /// Every catalog, in preference order.
    pub fn all() -> (r: Vec<SourceCatalog>)
        ensures
            r@ == seq![SourceCatalog::VitaDb, SourceCatalog::VitaDbToo, SourceCatalog::Nps],
    {
        vec![SourceCatalog::VitaDb, SourceCatalog::VitaDbToo, SourceCatalog::Nps]
    }

    /// The full name of the catalog.
    pub fn label(self) -> (r: &'static str)
        ensures
            r@ == match self {
                SourceCatalog::VitaDb => "VitaDB Official"@,
                SourceCatalog::VitaDbToo => "VitaDBtoo"@,
                SourceCatalog::Nps => "PKGj"@,
            },
    {
        match self {
            SourceCatalog::VitaDb => "VitaDB Official",
            SourceCatalog::VitaDbToo => "VitaDBtoo",
            SourceCatalog::Nps => "PKGj",
        }
    }

    /// The short name of the catalog.
    pub fn short_label(self) -> (r: &'static str)
        ensures
            r@ == match self {
                SourceCatalog::VitaDb => "VitaDB"@,
                SourceCatalog::VitaDbToo => "DBtoo"@,
                SourceCatalog::Nps => "PKGj"@,
            },
    {
        match self {
            SourceCatalog::VitaDb => "VitaDB",
            SourceCatalog::VitaDbToo => "DBtoo",
            SourceCatalog::Nps => "PKGj",
        }
    }

    /// The catalog an API catalog name refers to, if any.
    pub fn from_api(source_catalog: &str) -> (r: Option<SourceCatalog>)
        ensures
            r == source_from_api(source_catalog@),
    {
        if SourceCatalog::VitaDb.matches(source_catalog) {
            Some(SourceCatalog::VitaDb)
        } else if SourceCatalog::VitaDbToo.matches(source_catalog) {
            Some(SourceCatalog::VitaDbToo)
        } else if SourceCatalog::Nps.matches(source_catalog) {
            Some(SourceCatalog::Nps)
        } else {
            None
        }
    }

    /// Whether an API catalog name refers to this catalog.
    pub fn matches(self, source_catalog: &str) -> (r: bool)
        ensures
            r == source_matches(self, source_catalog@),
    {
        match self {
            SourceCatalog::VitaDb => str_eq_ignore_ascii_case(source_catalog, "vitadb") || str_eq_ignore_ascii_case(
                source_catalog,
                "vitadb_official",
            ) || str_eq_ignore_ascii_case(source_catalog, "vitadb-official"),
            SourceCatalog::VitaDbToo => str_eq_ignore_ascii_case(source_catalog, "vitadbtoo")
                || str_eq_ignore_ascii_case(source_catalog, "vitadb_too"),
            SourceCatalog::Nps => str_eq_ignore_ascii_case(source_catalog, "nps"),
        }
    }
}

/// What the catalog is sorted by.
#[derive(Clone, Copy, Debug, PartialEq, Eq, Structural)]
pub enum SortOrder {
    Downloads,
    Rating,
    Recent,
    Size,
    Name,
}

/// Which way the catalog is sorted.
#[derive(Clone, Copy, Debug, PartialEq, Eq, Structural)]
pub enum SortDirection {
    Asc,
    Desc,
}

impl SortOrder {
    /// Every sort order, in menu order.
    pub fn all() -> (r: Vec<SortOrder>)
        ensures
            r@ == seq![SortOrder::Downloads, SortOrder::Rating, SortOrder::Recent, SortOrder::Size, SortOrder::Name],
    {
        vec![SortOrder::Downloads, SortOrder::Rating, SortOrder::Recent, SortOrder::Size, SortOrder::Name]
    }

    /// The default sort order: most downloaded first.
    pub fn default_order() -> (r: SortOrder)
        ensures
            r == SortOrder::Downloads,
    {
        SortOrder::Downloads
    }

    /// The direction a sort order starts in: names ascending, everything else descending.
    pub fn default_direction(self) -> (r: SortDirection)
        ensures
            r == (if self == SortOrder::Name { SortDirection::Asc } else { SortDirection::Desc }),
    {
        match self {
            SortOrder::Name => SortDirection::Asc,
            _ => SortDirection::Desc,
        }
    }
}

impl SortDirection {
    /// The default direction: descending.
    pub fn default_direction() -> (r: SortDirection)
        ensures
            r == SortDirection::Desc,
    {
        SortDirection::Desc
    }

    /// The other direction.
    pub fn flipped(self) -> (r: SortDirection)
        ensures
            r == flip(self),
    {
        match self {
            SortDirection::Asc => SortDirection::Desc,
            SortDirection::Desc => SortDirection::Asc,
        }
    }
}

/// The opposite direction.
pub open spec fn flip(d: SortDirection) -> SortDirection {
    if d == SortDirection::Asc {
        SortDirection::Desc
    } else {
        SortDirection::Asc
    }
}

impl Default for SortOrder {
    fn default() -> (r: SortOrder)
        ensures
            r == SortOrder::Downloads,
    {
        SortOrder::Downloads
    }
}

impl Default for SortDirection {
    fn default() -> (r: SortDirection)
        ensures
            r == SortDirection::Desc,
    {
        SortDirection::Desc
    }
}

/// Flipping a direction always changes it, and flipping twice gives it back.
pub proof fn flipping_twice_restores_the_direction(d: SortDirection)
    ensures
        flip(d) != d,
        flip(flip(d)) == d,
{
}

} // verus!

verus! {

/// One catalog entry. `rating_bits` holds the bits of the `f32` average rating
/// (`f32::to_bits`); the `*_lower` fields are derived by `rebuild_derived`.
#[derive(Clone, Debug)]
pub struct AppEntry {
    pub id: String,
    pub titleid: String,
    pub titleid_lower: String,
    pub content_id: Option<String>,
    pub name: String,
    pub original_name: Option<String>,
    pub name_lower: String,
    pub author: String,
    pub author_lower: String,
    pub description: String,
    pub long_description: String,
    pub requirements: String,
    pub changelog: String,
    pub release_page: Option<String>,
    pub category: Category,
    pub platform: Platform,
    pub kind: String,
    pub icon_url: Option<String>,
    pub cover_url: Option<String>,
    pub background_url: Option<String>,
    pub screenshot_urls: Vec<String>,
    pub download_url: String,
    pub source: Option<String>,
    pub version: String,
    pub region: Option<String>,
    pub zrif: Option<String>,
    pub source_catalog: String,
    pub source_labels: Vec<String>,
    pub hash: String,
    pub hash2: String,
    pub data_url: Option<String>,
    pub data_size_bytes: u64,
    pub size_bytes: u64,
    pub downloads: u64,
    pub rating_bits: u32,
    pub updated_at: String,
    pub ratings_count: u32,
    pub likes_count: u32,
    pub comments_count: u32,
    pub user_liked: bool,
    pub user_rating: Option<u8>,
    pub overview: Vec<(String, String)>,
}

/// The decimal value of an ASCII digit run with an optional leading `+`
/// (`u32::from_str` on bytes), for runs of at most four bytes.
pub open spec fn parse_small_dec(s: Seq<u8>) -> Option<nat>
    decreases s.len(),
{
    if s.len() > 0 && s[0] == 43u8 {
        if s.len() == 1 { None } else { small_digits(s.drop_first()) }
    } else if s.len() == 0 {
        None
    } else {
        small_digits(s)
    }
}

/// The value of a non-empty run of ASCII decimal digits.
pub open spec fn small_digits(s: Seq<u8>) -> Option<nat>
    decreases s.len(),
{
    if s.len() == 0 {
        Some(0)
    } else {
        let d = s.last();
        if 48 <= d <= 57 {
            match small_digits(s.drop_last()) {
                Some(high) => Some(high * 10 + (d - 48) as nat),
                None => None,
            }
        } else {
            None
        }
    }
}

/// `updated_at` has the `YYYY-MM-DD` shape `sort_epoch` reads.
pub open spec fn epoch_shaped(b: Seq<u8>) -> bool {
    b.len() >= 10 && b[4] == 45u8 && b[7] == 45u8
}

/// The date stamp `YYYYMMDD` of an `updated_at` text, or 0 when it is not a date.
pub open spec fn epoch_of(b: Seq<u8>) -> u32 {
    if !epoch_shaped(b) {
        0
    } else {
        match (parse_small_dec(b.subrange(0, 4)), parse_small_dec(b.subrange(5, 7)), parse_small_dec(b.subrange(8, 10))) {
            (Some(y), Some(m), Some(d)) => (y * 10000 + m * 100 + d) as u32,
            _ => 0,
        }
    }
}

/// Reading the date would cut a character in two (slicing the text there panics).
pub open spec fn epoch_cuts_char(b: Seq<u8>) -> bool {
    epoch_shaped(b) && b.len() > 10 && 0x80 <= b[10] < 0xc0
}

/// Ten to the `k`.
pub open spec fn ten_pow(k: nat) -> nat
    decreases k,
{
    if k == 0 { 1 } else { 10 * ten_pow((k - 1) as nat) }
}

proof fn lemma_ten_pow_small(k: nat)
    requires
        k <= 4,
    ensures
        ten_pow(k) <= 10000,
{
    assert(ten_pow(0) == 1);
    assert(ten_pow(1) == 10);
    assert(ten_pow(2) == 100);
    assert(ten_pow(3) == 1000);
    assert(ten_pow(4) == 10000);
}

fn parse_small_dec_exec(b: &[u8], from: usize, to: usize) -> (r: Option<u32>)
    requires
        from <= to <= b@.len(),
        to - from <= 4,
    ensures
        r matches Some(v) ==> parse_small_dec(b@.subrange(from as int, to as int)) == Some(v as nat),
        r is None ==> parse_small_dec(b@.subrange(from as int, to as int)) is None,
        r matches Some(v) ==> v < 10000,
{
    let ghost s = b@.subrange(from as int, to as int);
    let mut start = from;
    if to > from && b[from] == 43u8 {
        if to - from == 1 {
            return None;
        }
        start = from + 1;
        assert(b@.subrange(start as int, to as int) =~= s.drop_first());
    } else if to == from {
        return None;
    } else {
        assert(b@.subrange(start as int, to as int) =~= s);
    }
    let mut value: u32 = 0;
    let mut i = start;
    proof {
        assert(b@.subrange(start as int, start as int) =~= Seq::<u8>::empty());
    }
    while i < to
        invariant
            from <= start <= i <= to <= b@.len(),
            to - from <= 4,
            small_digits(b@.subrange(start as int, i as int)) == Some(value as nat),
            value < ten_pow((i - start) as nat),
            parse_small_dec(b@.subrange(from as int, to as int)) == small_digits(b@.subrange(start as int, to as int)),
        decreases to - i,
    {
        let d = b[i];
        assert(b@.subrange(start as int, i + 1).drop_last() =~= b@.subrange(start as int, i as int));
        if d < 48 || d > 57 {
            proof {
                assert(b@.subrange(start as int, to as int).take(i + 1 - start) =~= b@.subrange(start as int, i + 1));
                lemma_small_none_extends(b@.subrange(start as int, i + 1), b@.subrange(start as int, to as int));
            }
            return None;
        }
        proof {
            lemma_ten_pow_small((i - start) as nat);
            assert(ten_pow((i + 1 - start) as nat) == 10 * ten_pow((i - start) as nat));
        }
        value = value * 10 + (d - 48) as u32;
        i += 1;
    }
    proof {
        lemma_ten_pow_small((to - start) as nat);
    }
    Some(value)
}

proof fn lemma_small_none_extends(prefix: Seq<u8>, s: Seq<u8>)
    requires
        prefix.len() <= s.len(),
        prefix == s.take(prefix.len() as int),
        small_digits(prefix) is None,
    ensures
        small_digits(s) is None,
    decreases s.len(),
{
    if s.len() > prefix.len() {
        assert(s.drop_last().take(prefix.len() as int) =~= prefix);
        lemma_small_none_extends(prefix, s.drop_last());
    } else {
        assert(prefix =~= s);
    }
}

/// Whether the date of a text can be read without cutting a character
/// (what `sort_epoch_of` needs).
pub fn date_is_readable(updated_at: &str) -> (r: bool)
    ensures
        r == !epoch_cuts_char(vstd::utf8::encode_utf8(updated_at@)),
{
    let b = updated_at.as_bytes();
    proof {
        broadcast use vstd::utf8::encode_utf8_valid_utf8;
    }
    !(b.len() > 10 && b[4] == 45u8 && b[7] == 45u8 && 0x80 <= b[10] && b[10] < 0xc0)
}

/// The `YYYYMMDD` stamp of a `YYYY-MM-DD` date text, or 0 when the text is not such a date.
pub fn sort_epoch_of(updated_at: &str) -> (r: u32)
    requires
        !epoch_cuts_char(vstd::utf8::encode_utf8(updated_at@)),
    ensures
        r == epoch_of(vstd::utf8::encode_utf8(updated_at@)),
{
    let bytes = updated_at.as_bytes();
    if bytes.len() < 10 || bytes[4] != 45u8 || bytes[7] != 45u8 {
        return 0;
    }
    let year = parse_small_dec_exec(bytes, 0, 4);
    let month = parse_small_dec_exec(bytes, 5, 7);
    let day = parse_small_dec_exec(bytes, 8, 10);
    match (year, month, day) {
        (Some(y), Some(m), Some(d)) => y * 10000 + m * 100 + d,
        _ => 0,
    }
}

impl AppEntry {
    /// The `YYYYMMDD` stamp of the entry's update date (0 when it is not a date).
    pub fn sort_epoch(&self) -> (r: u32)
        requires
            !epoch_cuts_char(vstd::utf8::encode_utf8(self.updated_at@)),
        ensures
            r == epoch_of(vstd::utf8::encode_utf8(self.updated_at@)),
    {
        sort_epoch_of(self.updated_at.as_str())
    }

    /// The download size label.
    pub fn size_label(&self) -> (r: String)
        ensures
            r@ == format::size_text(self.size_bytes as nat),
    {
        format::format_size(self.size_bytes)
    }

    /// The size label of the game data that goes with the entry.
    pub fn data_size_label(&self) -> (r: String)
        ensures
            r@ == format::size_text(self.data_size_bytes as nat),
    {
        format::format_size(self.data_size_bytes)
    }
}

} // verus!

verus! {

/// The name an entry ends up with: its cleaned name, or when that is blank the
/// first non-blank of its cleaned original name and its title id (else `Unknown`).
pub open spec fn derived_name(name: Seq<char>, original: Option<Seq<char>>, titleid: Seq<char>) -> Seq<char> {
    let cleaned = crate::text::sanitize_result(name);
    if trim(cleaned).len() == 0 {
        crate::text::display_name_text(""@, sanitized_opt(original), titleid)
    } else {
        cleaned
    }
}

/// An optional text, cleaned.
pub open spec fn sanitized_opt(o: Option<Seq<char>>) -> Option<Seq<char>> {
    match o {
        Some(s) => Some(crate::text::sanitize_result(s)),
        None => None,
    }
}

fn sanitize_opt(o: Option<String>) -> (r: Option<String>)
    ensures
        crate::strings::opt_string_view(r) == sanitized_opt(crate::strings::opt_string_view(o)),
{
    match o {
        Some(s) => {
            let mut s = s;
            crate::text::sanitize(&mut s);
            Some(s)
        },
        None => None,
    }
}

impl AppEntry {
    /// Cleans the displayed texts, fills in a blank name, and recomputes the
    /// lower-case search keys. Every other field is left as it was.
    pub fn rebuild_derived(&mut self)
        ensures
            final(self).name@ == derived_name(old(self).name@, crate::strings::opt_string_view(old(self).original_name),
                old(self).titleid@),
            crate::strings::opt_string_view(final(self).original_name) == sanitized_opt(
                crate::strings::opt_string_view(old(self).original_name),
            ),
            final(self).author@ == crate::text::sanitize_result(old(self).author@),
            final(self).description@ == crate::text::sanitize_result(old(self).description@),
            final(self).long_description@ == crate::text::sanitize_result(old(self).long_description@),
            final(self).requirements@ == crate::text::sanitize_result(old(self).requirements@),
            final(self).changelog@ == crate::text::sanitize_result(old(self).changelog@),
            final(self).version@ == crate::text::sanitize_result(old(self).version@),
            final(self).overview@.len() == old(self).overview@.len(),
            forall|i: int| 0 <= i < old(self).overview@.len() ==> {
                &&& (#[trigger] final(self).overview@[i]).0@ == crate::text::sanitize_result(old(self).overview@[i].0@)
                &&& final(self).overview@[i].1@ == crate::text::sanitize_result(old(self).overview@[i].1@)
            },
            final(self).name_lower@ == crate::strings::lowercase(final(self).name@),
            final(self).author_lower@ == crate::strings::lowercase(final(self).author@),
            final(self).titleid_lower@ == crate::strings::lowercase(old(self).titleid@),
            final(self).id == old(self).id,
            final(self).titleid == old(self).titleid,
            final(self).content_id == old(self).content_id,
            final(self).release_page == old(self).release_page,
            final(self).category == old(self).category,
            final(self).platform == old(self).platform,
            final(self).kind == old(self).kind,
            final(self).icon_url == old(self).icon_url,
            final(self).cover_url == old(self).cover_url,
            final(self).background_url == old(self).background_url,
            final(self).screenshot_urls == old(self).screenshot_urls,
            final(self).download_url == old(self).download_url,
            final(self).source == old(self).source,
            final(self).region == old(self).region,
            final(self).zrif == old(self).zrif,
            final(self).source_catalog == old(self).source_catalog,
            final(self).source_labels == old(self).source_labels,
            final(self).hash == old(self).hash,
            final(self).hash2 == old(self).hash2,
            final(self).data_url == old(self).data_url,
            final(self).data_size_bytes == old(self).data_size_bytes,
            final(self).size_bytes == old(self).size_bytes,
            final(self).downloads == old(self).downloads,
            final(self).rating_bits == old(self).rating_bits,
            final(self).updated_at == old(self).updated_at,
            final(self).ratings_count == old(self).ratings_count,
            final(self).likes_count == old(self).likes_count,
            final(self).comments_count == old(self).comments_count,
            final(self).user_liked == old(self).user_liked,
            final(self).user_rating == old(self).user_rating,
    {
        crate::text::sanitize(&mut self.name);
        let original = sanitize_opt(self.original_name.take());
        self.original_name = original;
        if crate::text::is_blank(self.name.as_str()) {
            let fallback = {
                let original_text: Option<&str> = match &self.original_name {
                    Some(s) => Some(s.as_str()),
                    None => None,
                };
                crate::text::display_name("", original_text, self.titleid.as_str()).to_owned()
            };
            self.name = fallback;
        }
        crate::text::sanitize(&mut self.author);
        crate::text::sanitize(&mut self.description);
        crate::text::sanitize(&mut self.long_description);
        crate::text::sanitize(&mut self.requirements);
        crate::text::sanitize(&mut self.changelog);
        crate::text::sanitize(&mut self.version);
        let mut previous: Vec<(String, String)> = Vec::new();
        std::mem::swap(&mut previous, &mut self.overview);
        let ghost before = previous@;
        let mut cleaned: Vec<(String, String)> = Vec::new();
        for pair in it: previous.into_iter()
            invariant
                it.seq() == before,
                cleaned@.len() == it.index(),
                forall|i: int| 0 <= i < it.index() ==> {
                    &&& (#[trigger] cleaned@[i]).0@ == crate::text::sanitize_result(before[i].0@)
                    &&& cleaned@[i].1@ == crate::text::sanitize_result(before[i].1@)
                },
        {
            let (mut key, mut value) = pair;
            crate::text::sanitize(&mut key);
            crate::text::sanitize(&mut value);
            cleaned.push((key, value));
        }
        self.overview = cleaned;
        self.name_lower = crate::strings::to_lowercase(self.name.as_str());
        self.author_lower = crate::strings::to_lowercase(self.author.as_str());
        self.titleid_lower = crate::strings::to_lowercase(self.titleid.as_str());
    }
}

} // verus!
