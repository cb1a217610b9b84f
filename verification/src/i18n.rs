//! Interface languages. Every user-facing text is a Fluent message, formatted
//! by `fluent-bundle` from the language's FTL resource.

use vstd::prelude::*;
use fluent_bundle::{FluentArgs, FluentBundle, FluentResource};
use unic_langid::LanguageIdentifier;
use crate::data::{Category, SortOrder};
use crate::strings::{opt_string_view, starts_with, lowercase, str_starts_with, to_lowercase};

verus! {

/// The English messages.
pub const EN_US_FTL: &'static str = "category-all = ALL
category-emulator = EMULATORS
category-original = HOMEBREW
category-ps-vita-game = PS VITA
category-ps1-game = PS1
category-psp-game = PSP
category-plugin = PLUGINS
category-port = PORTS
category-tool = TOOLS
category-utility = UTILITIES
category-other = OTHER
sort-by-prefix = SORT BY
sort-downloads = DOWNLOADS
sort-rating = RATING
sort-recent = RECENT
sort-size = SIZE
sort-name = NAME
search-placeholder = Search homebrews...
no-results = No homebrews found
no-results-sub = Try another search or category
featured-label = FEATURED
view-details-label = VIEW DETAILS
install-btn = INSTALL
reinstall-btn = REINSTALL
update-btn = UPDATE
installed-label = INSTALLED
update-available = UPDATE AVAILABLE
installed-version-label = INSTALLED VERSION
install-in-progress = Installing...
plugin-manual-note = This plugin must be enabled in the config file after installing.
release-page = RELEASE PAGE
download-btn = DOWNLOAD
requirements-label = REQUIREMENTS
changelog-label = CHANGELOG
needs-game-data = Needs extra game data
overview-label = OVERVIEW
needs-nonpdrm = Needs NoNpDrm
description-label = DESCRIPTION
technical-info = TECHNICAL INFO
version-label = VERSION
size-label = SIZE
downloads-label = DOWNLOADS
rating-label = RATING
updated-label = UPDATED
community-label = COMMUNITY
your-rating = YOUR RATING
ratings-count = RATINGS
comments-label = COMMENTS
add-comment = ADD COMMENT
loading-comments = Loading comments...
no-comments-yet = No comments yet
back-label = BACK
btn-open = OPEN
btn-back = BACK
btn-search = SEARCH
btn-category = CATEGORY
btn-tabs = TABS
btn-clear = CLEAR
tab-discover = DISCOVER
tab-library = LIBRARY
tab-updates = UPDATES
tab-search = SEARCH
rail-top = TOP DOWNLOADS
rail-new = NEW AND UPDATED
see-all = SEE ALL
see-all-catalog = SEE THE WHOLE CATALOG
see-all-back = BACK TO DISCOVER
library-empty = Nothing installed yet
updates-empty = Everything is up to date
loading-msg = Loading catalog...
settings-title = SETTINGS
language-label = LANGUAGE
settings-storage = STORAGE
settings-version = VERSION
settings-catalog = CATALOG
settings-icon-cache = ICON CACHE
settings-catalog-cache = CATALOG CACHE
settings-hash-cache = HASH CACHE
settings-total = TOTAL
settings-clear-icons = CLEAR ICONS
settings-clear-catalog = CLEAR CATALOG
settings-purge-all = PURGE ALL
settings-cleared-icons = Cleared { $size } of icons
settings-cleared-catalog = Catalog cache cleared
settings-purged-all = Purged { $size } of cached data
cancel-btn = CANCEL
installed-version-value = Installed
apps-count = { $count } APPS
by-author = by { $author }
";

/// The Spanish messages.
pub const ES_ES_FTL: &'static str = "category-all = ALL
category-emulator = EMULADORES
category-original = HOMEBREW
category-ps-vita-game = PS VITA
category-ps1-game = PS1
category-psp-game = PSP
category-plugin = PLUGINS
category-port = PORTS
category-tool = HERRAMIENTAS
category-utility = UTILIDADES
category-other = OTROS
sort-by-prefix = ORDENAR POR
sort-downloads = DESCARGAS
sort-rating = VALORACION
sort-recent = RECIENTES
sort-size = TAMANO
sort-name = NOMBRE
search-placeholder = Buscar homebrews...
no-results = No se encontraron resultados
no-results-sub = Prueba otra busqueda o categoria
featured-label = DESTACADO
view-details-label = VER DETALLES
install-btn = INSTALAR
reinstall-btn = REINSTALAR
update-btn = ACTUALIZAR
installed-label = INSTALADO
update-available = ACTUALIZACION DISPONIBLE
installed-version-label = VERSION INSTALADA
install-in-progress = Instalando...
plugin-manual-note = Este plugin debe activarse en el archivo de configuracion tras instalarlo.
release-page = PAGINA DE LA VERSION
download-btn = DESCARGAR
requirements-label = REQUISITOS
changelog-label = CAMBIOS
needs-game-data = Necesita datos de juego adicionales
overview-label = RESUMEN
needs-nonpdrm = Necesita NoNpDrm
description-label = DESCRIPCION
technical-info = INFORMACION TECNICA
version-label = VERSION
size-label = TAMANO
downloads-label = DESCARGAS
rating-label = VALORACION
updated-label = ACTUALIZADO
community-label = COMUNIDAD
your-rating = TU VALORACION
ratings-count = VALORACIONES
comments-label = COMENTARIOS
add-comment = COMENTAR
loading-comments = Cargando comentarios...
no-comments-yet = Aun no hay comentarios
back-label = VOLVER
btn-open = ABRIR
btn-back = VOLVER
btn-search = BUSCAR
btn-category = CATEGORIA
btn-tabs = PESTANAS
btn-clear = BORRAR
tab-discover = DESCUBRIR
tab-library = BIBLIOTECA
tab-updates = ACTUALIZACIONES
tab-search = BUSCAR
rail-top = MAS DESCARGADOS
rail-new = NUEVOS Y ACTUALIZADOS
see-all = VER LISTA COMPLETA
see-all-catalog = VER EL CATALOGO COMPLETO
see-all-back = VOLVER A DESCUBRIR
library-empty = Aun no hay nada instalado
updates-empty = Todo esta al dia
loading-msg = Cargando catalogo...
settings-title = AJUSTES
language-label = IDIOMA
settings-storage = ALMACENAMIENTO
settings-version = VERSION
settings-catalog = CATALOGO
settings-icon-cache = CACHE DE ICONOS
settings-catalog-cache = CACHE DEL CATALOGO
settings-hash-cache = CACHE DE HASHES
settings-total = TOTAL
settings-clear-icons = BORRAR ICONOS
settings-clear-catalog = BORRAR CATALOGO
settings-purge-all = VACIAR CACHES
settings-cleared-icons = Se borraron { $size } de iconos
settings-cleared-catalog = Cache del catalogo borrada
settings-purged-all = Se borraron { $size } de datos en cache
cancel-btn = CANCELAR
installed-version-value = Instalada
apps-count = { $count } APPS
by-author = por { $author }
";

/// What `fluent-bundle` formats for message `id` of the FTL `source` in the
/// language `locale`, with the given text and number arguments; `None` when
/// the locale or the source is refused, the message is missing or has no
/// value, or formatting reports an error.
pub uninterp spec fn fluent_message(
    locale: Seq<char>,
    source: Seq<char>,
    id: Seq<char>,
    texts: Seq<(Seq<char>, Seq<char>)>,
    numbers: Seq<(Seq<char>, u64)>,
) -> Option<Seq<char>>;

/// Text arguments by their views.
pub open spec fn text_arg_views(args: Seq<(String, String)>) -> Seq<(Seq<char>, Seq<char>)> {
    args.map_values(|a: (String, String)| (a.0@, a.1@))
}

/// Number arguments with their names by view.
pub open spec fn number_arg_views(args: Seq<(String, u64)>) -> Seq<(Seq<char>, u64)> {
    args.map_values(|a: (String, u64)| (a.0@, a.1))
}

/// Formats one message with `fluent-bundle`: parses `locale` as a
/// `unic_langid::LanguageIdentifier`, `source` as a `FluentResource`, builds a
/// `FluentBundle` for that locale without bidi isolation marks, adds the
/// resource, and formats the value of message `id` with the arguments
/// (`FluentBundle::format_pattern`). The contract only names the result:
/// `None` on any parse, lookup or formatting error, else the formatted text.
#[verifier::external_body]
fn fluent_format(
    locale: &str,
    source: &str,
    id: &str,
    texts: &Vec<(String, String)>,
    numbers: &Vec<(String, u64)>,
) -> (r: Option<String>)
    ensures
        opt_string_view(r) == fluent_message(locale@, source@, id@, text_arg_views(texts@), number_arg_views(numbers@)),
{
    let langid: LanguageIdentifier = locale.parse().ok()?;
    let mut bundle = FluentBundle::new(vec![langid]);
    bundle.set_use_isolating(false);
    bundle.add_resource(FluentResource::try_new(source.into()).ok()?).ok()?;
    let pattern = bundle.get_message(id)?.value()?;
    let mut args = FluentArgs::new();
    for (key, text) in texts.iter() { args.set(key.as_str(), text.as_str()); }
    for (key, number) in numbers.iter() { args.set(key.as_str(), *number); }
    let mut errors = Vec::new();
    let text = bundle.format_pattern(pattern, Some(&args), &mut errors);
    if errors.is_empty() { Some(text.into()) } else { None }
}

/// An interface language.
#[derive(Debug, Clone, Copy, PartialEq, Eq, Structural)]
pub enum Language {
    English,
    Spanish,
}

/// The locale a language's messages are formatted in.
pub open spec fn locale_of(lang: Language) -> Seq<char> {
    match lang {
        Language::English => "en-US"@,
        Language::Spanish => "es-ES"@,
    }
}

/// The FTL resource of a language.
pub open spec fn source_of(lang: Language) -> Seq<char> {
    match lang {
        Language::English => EN_US_FTL@,
        Language::Spanish => ES_ES_FTL@,
    }
}

/// The text shown for message `id`: what Fluent formats, or the message id
/// itself when Fluent reports an error.
pub open spec fn localized(
    lang: Language,
    id: Seq<char>,
    texts: Seq<(Seq<char>, Seq<char>)>,
    numbers: Seq<(Seq<char>, u64)>,
) -> Seq<char> {
    match fluent_message(locale_of(lang), source_of(lang), id, texts, numbers) {
        Some(text) => text,
        None => id,
    }
}

/// A message without arguments.
pub open spec fn label(lang: Language, id: Seq<char>) -> Seq<char> {
    localized(lang, id, Seq::empty(), Seq::empty())
}

/// The message id of a category's label (`None` is "all categories").
pub open spec fn category_message(cat: Option<Category>) -> Seq<char> {
    match cat {
        None => "category-all"@,
        Some(Category::Emulator) => "category-emulator"@,
        Some(Category::Original) => "category-original"@,
        Some(Category::PsVitaGame) => "category-ps-vita-game"@,
        Some(Category::Ps1Game) => "category-ps1-game"@,
        Some(Category::PspGame) => "category-psp-game"@,
        Some(Category::Plugin) => "category-plugin"@,
        Some(Category::Port) => "category-port"@,
        Some(Category::Tool) => "category-tool"@,
        Some(Category::Utility) => "category-utility"@,
        Some(Category::Other) => "category-other"@,
    }
}

/// The message id of a sort order's label.
pub open spec fn sort_message(sort: SortOrder) -> Seq<char> {
    match sort {
        SortOrder::Downloads => "sort-downloads"@,
        SortOrder::Rating => "sort-rating"@,
        SortOrder::Recent => "sort-recent"@,
        SortOrder::Size => "sort-size"@,
        SortOrder::Name => "sort-name"@,
    }
}

/// The language a system locale tag asks for: Spanish for tags that start
/// with `es` in any case, else English.
pub open spec fn language_for_locale(tag: Seq<char>) -> Language {
    if starts_with(lowercase(tag), "es"@) { Language::Spanish } else { Language::English }
}

} // verus!

verus! {

impl Language {
    /// Every language, in the order the settings list them.
    pub fn all() -> (r: Vec<Language>)
        ensures
            r@ == seq![Language::English, Language::Spanish],
    {
        vec![Language::English, Language::Spanish]
    }

    /// The language of a system locale tag such as `LANG` (`es_ES.UTF-8`).
    pub fn from_locale_tag(tag: &str) -> (r: Language)
        ensures
            r == language_for_locale(tag@),
    {
        let lower = to_lowercase(tag);
        if str_starts_with(lower.as_str(), "es") { Language::Spanish } else { Language::English }
    }

    /// The language of the console's system language parameter: Spanish
    /// for its code 5; other codes leave the choice to the locale.
    pub fn from_system_param(code: i32) -> (r: Option<Language>)
        ensures
            r == (if code == 5 { Some(Language::Spanish) } else { None }),
    {
        if code == 5 { Some(Language::Spanish) } else { None }
    }

    fn locale_tag(self) -> (r: &'static str)
        ensures
            r@ == locale_of(self),
    {
        match self {
            Language::English => "en-US",
            Language::Spanish => "es-ES",
        }
    }

    fn ftl_source(self) -> (r: &'static str)
        ensures
            r@ == source_of(self),
    {
        match self {
            Language::English => EN_US_FTL,
            Language::Spanish => ES_ES_FTL,
        }
    }

    fn format(self, id: &str, texts: Vec<(String, String)>, numbers: Vec<(String, u64)>) -> (r: String)
        ensures
            r@ == localized(self, id@, text_arg_views(texts@), number_arg_views(numbers@)),
    {
        match fluent_format(self.locale_tag(), self.ftl_source(), id, &texts, &numbers) {
            Some(text) => text,
            None => id.to_owned(),
        }
    }

    fn text(self, id: &str) -> (r: String)
        ensures
            r@ == label(self, id@),
    {
        let texts: Vec<(String, String)> = Vec::new();
        let numbers: Vec<(String, u64)> = Vec::new();
        assert(text_arg_views(texts@) =~= Seq::empty());
        assert(number_arg_views(numbers@) =~= Seq::empty());
        self.format(id, texts, numbers)
    }

    /// The `N APPS` counter.
    pub fn apps_count(self, count: usize) -> (r: String)
        ensures
            r@ == localized(self, "apps-count"@, Seq::empty(), seq![("count"@, count as u64)]),
    {
        let texts: Vec<(String, String)> = Vec::new();
        let mut numbers: Vec<(String, u64)> = Vec::new();
        numbers.push(("count".to_owned(), count as u64));
        assert(text_arg_views(texts@) =~= Seq::empty());
        assert(number_arg_views(numbers@) =~= seq![("count"@, count as u64)]);
        self.format("apps-count", texts, numbers)
    }

    /// The `by <author>` line.
    pub fn by_author(self, author: &str) -> (r: String)
        ensures
            r@ == localized(self, "by-author"@, seq![("author"@, author@)], Seq::empty()),
    {
        self.with_text_arg("by-author", "author", author)
    }

    /// The note shown after the icon cache was cleared, with the freed size.
    pub fn settings_cleared_icons(self, size: &str) -> (r: String)
        ensures
            r@ == localized(self, "settings-cleared-icons"@, seq![("size"@, size@)], Seq::empty()),
    {
        self.with_text_arg("settings-cleared-icons", "size", size)
    }

    /// The note shown after every cache was purged, with the freed size.
    pub fn settings_purged_all(self, size: &str) -> (r: String)
        ensures
            r@ == localized(self, "settings-purged-all"@, seq![("size"@, size@)], Seq::empty()),
    {
        self.with_text_arg("settings-purged-all", "size", size)
    }

    fn with_text_arg(self, id: &str, name: &str, value: &str) -> (r: String)
        ensures
            r@ == localized(self, id@, seq![(name@, value@)], Seq::empty()),
    {
        let mut texts: Vec<(String, String)> = Vec::new();
        texts.push((name.to_owned(), value.to_owned()));
        let numbers: Vec<(String, u64)> = Vec::new();
        assert(text_arg_views(texts@) =~= seq![(name@, value@)]);
        assert(number_arg_views(numbers@) =~= Seq::empty());
        self.format(id, texts, numbers)
    }

    /// The label of a category filter; `None` is the "all" filter.
    pub fn category_label(self, cat: Option<Category>) -> (r: String)
        ensures
            r@ == label(self, category_message(cat)),
    {
        let id = match cat {
            None => "category-all",
            Some(Category::Emulator) => "category-emulator",
            Some(Category::Original) => "category-original",
            Some(Category::PsVitaGame) => "category-ps-vita-game",
            Some(Category::Ps1Game) => "category-ps1-game",
            Some(Category::PspGame) => "category-psp-game",
            Some(Category::Plugin) => "category-plugin",
            Some(Category::Port) => "category-port",
            Some(Category::Tool) => "category-tool",
            Some(Category::Utility) => "category-utility",
            Some(Category::Other) => "category-other",
        };
        self.text(id)
    }

    /// The label of a sort order.
    pub fn sort_label(self, sort: SortOrder) -> (r: String)
        ensures
            r@ == label(self, sort_message(sort)),
    {
        let id = match sort {
            SortOrder::Downloads => "sort-downloads",
            SortOrder::Rating => "sort-rating",
            SortOrder::Recent => "sort-recent",
            SortOrder::Size => "sort-size",
            SortOrder::Name => "sort-name",
        };
        self.text(id)
    }

} // impl Language

} // verus!

verus! {

/// Fixed interface texts, one message each.
impl Language {
    /// Message `sort-by-prefix`.
    pub fn sort_by_prefix(self) -> (r: String)
        ensures
            r@ == label(self, "sort-by-prefix"@),
    {
        self.text("sort-by-prefix")
    }

    /// Message `search-placeholder`.
    pub fn search_placeholder(self) -> (r: String)
        ensures
            r@ == label(self, "search-placeholder"@),
    {
        self.text("search-placeholder")
    }

    /// Message `no-results`.
    pub fn no_results(self) -> (r: String)
        ensures
            r@ == label(self, "no-results"@),
    {
        self.text("no-results")
    }

    /// Message `no-results-sub`.
    pub fn no_results_sub(self) -> (r: String)
        ensures
            r@ == label(self, "no-results-sub"@),
    {
        self.text("no-results-sub")
    }

    /// Message `featured-label`.
    pub fn featured_label(self) -> (r: String)
        ensures
            r@ == label(self, "featured-label"@),
    {
        self.text("featured-label")
    }

    /// Message `view-details-label`.
    pub fn view_details_label(self) -> (r: String)
        ensures
            r@ == label(self, "view-details-label"@),
    {
        self.text("view-details-label")
    }

    /// Message `install-btn`.
    pub fn install(self) -> (r: String)
        ensures
            r@ == label(self, "install-btn"@),
    {
        self.text("install-btn")
    }

    /// Message `reinstall-btn`.
    pub fn reinstall(self) -> (r: String)
        ensures
            r@ == label(self, "reinstall-btn"@),
    {
        self.text("reinstall-btn")
    }

    /// Message `update-btn`.
    pub fn update(self) -> (r: String)
        ensures
            r@ == label(self, "update-btn"@),
    {
        self.text("update-btn")
    }

    /// Message `installed-label`.
    pub fn installed(self) -> (r: String)
        ensures
            r@ == label(self, "installed-label"@),
    {
        self.text("installed-label")
    }

    /// Message `update-available`.
    pub fn update_available(self) -> (r: String)
        ensures
            r@ == label(self, "update-available"@),
    {
        self.text("update-available")
    }

    /// Message `installed-version-label`.
    pub fn installed_version(self) -> (r: String)
        ensures
            r@ == label(self, "installed-version-label"@),
    {
        self.text("installed-version-label")
    }

    /// Message `install-in-progress`.
    pub fn install_in_progress(self) -> (r: String)
        ensures
            r@ == label(self, "install-in-progress"@),
    {
        self.text("install-in-progress")
    }

    /// Message `plugin-manual-note`.
    pub fn plugin_manual_note(self) -> (r: String)
        ensures
            r@ == label(self, "plugin-manual-note"@),
    {
        self.text("plugin-manual-note")
    }

    /// Message `release-page`.
    pub fn release_page(self) -> (r: String)
        ensures
            r@ == label(self, "release-page"@),
    {
        self.text("release-page")
    }

    /// Message `download-btn`.
    pub fn download(self) -> (r: String)
        ensures
            r@ == label(self, "download-btn"@),
    {
        self.text("download-btn")
    }

    /// Message `requirements-label`.
    pub fn requirements(self) -> (r: String)
        ensures
            r@ == label(self, "requirements-label"@),
    {
        self.text("requirements-label")
    }

    /// Message `changelog-label`.
    pub fn changelog(self) -> (r: String)
        ensures
            r@ == label(self, "changelog-label"@),
    {
        self.text("changelog-label")
    }

    /// Message `needs-game-data`.
    pub fn needs_game_data(self) -> (r: String)
        ensures
            r@ == label(self, "needs-game-data"@),
    {
        self.text("needs-game-data")
    }

    /// Message `overview-label`.
    pub fn overview(self) -> (r: String)
        ensures
            r@ == label(self, "overview-label"@),
    {
        self.text("overview-label")
    }

    /// Message `needs-nonpdrm`.
    pub fn needs_nonpdrm(self) -> (r: String)
        ensures
            r@ == label(self, "needs-nonpdrm"@),
    {
        self.text("needs-nonpdrm")
    }

    /// Message `description-label`.
    pub fn description(self) -> (r: String)
        ensures
            r@ == label(self, "description-label"@),
    {
        self.text("description-label")
    }

    /// Message `technical-info`.
    pub fn technical_info(self) -> (r: String)
        ensures
            r@ == label(self, "technical-info"@),
    {
        self.text("technical-info")
    }

    /// Message `version-label`.
    pub fn version(self) -> (r: String)
        ensures
            r@ == label(self, "version-label"@),
    {
        self.text("version-label")
    }

    /// Message `size-label`.
    pub fn size(self) -> (r: String)
        ensures
            r@ == label(self, "size-label"@),
    {
        self.text("size-label")
    }

    /// Message `downloads-label`.
    pub fn downloads(self) -> (r: String)
        ensures
            r@ == label(self, "downloads-label"@),
    {
        self.text("downloads-label")
    }

    /// Message `rating-label`.
    pub fn rating(self) -> (r: String)
        ensures
            r@ == label(self, "rating-label"@),
    {
        self.text("rating-label")
    }

    /// Message `updated-label`.
    pub fn updated(self) -> (r: String)
        ensures
            r@ == label(self, "updated-label"@),
    {
        self.text("updated-label")
    }

    /// Message `community-label`.
    pub fn community(self) -> (r: String)
        ensures
            r@ == label(self, "community-label"@),
    {
        self.text("community-label")
    }

    /// Message `your-rating`.
    pub fn your_rating(self) -> (r: String)
        ensures
            r@ == label(self, "your-rating"@),
    {
        self.text("your-rating")
    }

    /// Message `ratings-count`.
    pub fn ratings_count(self) -> (r: String)
        ensures
            r@ == label(self, "ratings-count"@),
    {
        self.text("ratings-count")
    }

    /// Message `comments-label`.
    pub fn comments(self) -> (r: String)
        ensures
            r@ == label(self, "comments-label"@),
    {
        self.text("comments-label")
    }

    /// Message `add-comment`.
    pub fn add_comment(self) -> (r: String)
        ensures
            r@ == label(self, "add-comment"@),
    {
        self.text("add-comment")
    }

    /// Message `loading-comments`.
    pub fn loading_comments(self) -> (r: String)
        ensures
            r@ == label(self, "loading-comments"@),
    {
        self.text("loading-comments")
    }

    /// Message `no-comments-yet`.
    pub fn no_comments_yet(self) -> (r: String)
        ensures
            r@ == label(self, "no-comments-yet"@),
    {
        self.text("no-comments-yet")
    }

    /// Message `back-label`.
    pub fn back(self) -> (r: String)
        ensures
            r@ == label(self, "back-label"@),
    {
        self.text("back-label")
    }

    /// Message `settings-title`.
    pub fn settings_title(self) -> (r: String)
        ensures
            r@ == label(self, "settings-title"@),
    {
        self.text("settings-title")
    }

    /// Message `language-label`.
    pub fn language_label(self) -> (r: String)
        ensures
            r@ == label(self, "language-label"@),
    {
        self.text("language-label")
    }

    /// Message `settings-storage`.
    pub fn settings_storage(self) -> (r: String)
        ensures
            r@ == label(self, "settings-storage"@),
    {
        self.text("settings-storage")
    }

    /// Message `settings-version`.
    pub fn settings_version(self) -> (r: String)
        ensures
            r@ == label(self, "settings-version"@),
    {
        self.text("settings-version")
    }

    /// Message `settings-catalog`.
    pub fn settings_catalog(self) -> (r: String)
        ensures
            r@ == label(self, "settings-catalog"@),
    {
        self.text("settings-catalog")
    }

    /// Message `settings-icon-cache`.
    pub fn settings_icon_cache(self) -> (r: String)
        ensures
            r@ == label(self, "settings-icon-cache"@),
    {
        self.text("settings-icon-cache")
    }

    /// Message `settings-catalog-cache`.
    pub fn settings_catalog_cache(self) -> (r: String)
        ensures
            r@ == label(self, "settings-catalog-cache"@),
    {
        self.text("settings-catalog-cache")
    }

    /// Message `settings-hash-cache`.
    pub fn settings_hash_cache(self) -> (r: String)
        ensures
            r@ == label(self, "settings-hash-cache"@),
    {
        self.text("settings-hash-cache")
    }

    /// Message `settings-total`.
    pub fn settings_total(self) -> (r: String)
        ensures
            r@ == label(self, "settings-total"@),
    {
        self.text("settings-total")
    }

    /// Message `settings-clear-icons`.
    pub fn settings_clear_icons(self) -> (r: String)
        ensures
            r@ == label(self, "settings-clear-icons"@),
    {
        self.text("settings-clear-icons")
    }

    /// Message `settings-clear-catalog`.
    pub fn settings_clear_catalog(self) -> (r: String)
        ensures
            r@ == label(self, "settings-clear-catalog"@),
    {
        self.text("settings-clear-catalog")
    }

    /// Message `settings-purge-all`.
    pub fn settings_purge_all(self) -> (r: String)
        ensures
            r@ == label(self, "settings-purge-all"@),
    {
        self.text("settings-purge-all")
    }

    /// Message `settings-cleared-catalog`.
    pub fn settings_cleared_catalog(self) -> (r: String)
        ensures
            r@ == label(self, "settings-cleared-catalog"@),
    {
        self.text("settings-cleared-catalog")
    }

    /// Message `btn-open`.
    pub fn btn_open(self) -> (r: String)
        ensures
            r@ == label(self, "btn-open"@),
    {
        self.text("btn-open")
    }

    /// Message `btn-back`.
    pub fn btn_back(self) -> (r: String)
        ensures
            r@ == label(self, "btn-back"@),
    {
        self.text("btn-back")
    }

    /// Message `btn-search`.
    pub fn btn_search(self) -> (r: String)
        ensures
            r@ == label(self, "btn-search"@),
    {
        self.text("btn-search")
    }

    /// Message `btn-category`.
    pub fn btn_category(self) -> (r: String)
        ensures
            r@ == label(self, "btn-category"@),
    {
        self.text("btn-category")
    }

    /// Message `btn-tabs`.
    pub fn btn_tabs(self) -> (r: String)
        ensures
            r@ == label(self, "btn-tabs"@),
    {
        self.text("btn-tabs")
    }

    /// Message `btn-clear`.
    pub fn btn_clear(self) -> (r: String)
        ensures
            r@ == label(self, "btn-clear"@),
    {
        self.text("btn-clear")
    }

    /// Message `tab-discover`.
    pub fn tab_discover(self) -> (r: String)
        ensures
            r@ == label(self, "tab-discover"@),
    {
        self.text("tab-discover")
    }

    /// Message `tab-library`.
    pub fn tab_library(self) -> (r: String)
        ensures
            r@ == label(self, "tab-library"@),
    {
        self.text("tab-library")
    }

    /// Message `tab-updates`.
    pub fn tab_updates(self) -> (r: String)
        ensures
            r@ == label(self, "tab-updates"@),
    {
        self.text("tab-updates")
    }

    /// Message `tab-search`.
    pub fn tab_search(self) -> (r: String)
        ensures
            r@ == label(self, "tab-search"@),
    {
        self.text("tab-search")
    }

    /// Message `rail-top`.
    pub fn rail_top(self) -> (r: String)
        ensures
            r@ == label(self, "rail-top"@),
    {
        self.text("rail-top")
    }

    /// Message `rail-new`.
    pub fn rail_new(self) -> (r: String)
        ensures
            r@ == label(self, "rail-new"@),
    {
        self.text("rail-new")
    }

    /// Message `see-all`.
    pub fn see_all(self) -> (r: String)
        ensures
            r@ == label(self, "see-all"@),
    {
        self.text("see-all")
    }

    /// Message `see-all-catalog`.
    pub fn see_all_catalog(self) -> (r: String)
        ensures
            r@ == label(self, "see-all-catalog"@),
    {
        self.text("see-all-catalog")
    }

    /// Message `see-all-back`.
    pub fn see_all_back(self) -> (r: String)
        ensures
            r@ == label(self, "see-all-back"@),
    {
        self.text("see-all-back")
    }

    /// Message `library-empty`.
    pub fn library_empty(self) -> (r: String)
        ensures
            r@ == label(self, "library-empty"@),
    {
        self.text("library-empty")
    }

    /// Message `updates-empty`.
    pub fn updates_empty(self) -> (r: String)
        ensures
            r@ == label(self, "updates-empty"@),
    {
        self.text("updates-empty")
    }

    /// Message `loading-msg`.
    pub fn loading_msg(self) -> (r: String)
        ensures
            r@ == label(self, "loading-msg"@),
    {
        self.text("loading-msg")
    }

    /// Message `cancel-btn`.
    pub fn cancel_btn(self) -> (r: String)
        ensures
            r@ == label(self, "cancel-btn"@),
    {
        self.text("cancel-btn")
    }

    /// Message `installed-version-value`.
    pub fn installed_version_value(self) -> (r: String)
        ensures
            r@ == label(self, "installed-version-value"@),
    {
        self.text("installed-version-value")
    }

} // impl Language

} // verus!
