//! The sections, actions, languages and themes the interface offers, with
//! their labels, and the preferences the user keeps between runs.
use vstd::prelude::*;
use crate::text::owned;

verus! {

/// An action on a database of the workbench.
#[derive(Debug, Clone, Copy, PartialEq, Eq, Structural)]
pub enum DatabaseAction {
    CreateDatabase,
    CreateTable,
    ShowDatabase,
    AlterDatabaseName,
    AlterDatabaseCharset,
    DropDatabase,
}

/// A field of the database edit dialogs.
#[derive(Debug, Clone, Copy, PartialEq, Eq, Structural)]
pub enum DatabaseEditField {
    NewName,
    Charset,
    Collation,
}

/// An action on a table of the workbench.
#[derive(Debug, Clone, Copy, PartialEq, Eq, Structural)]
pub enum TableAction {
    SelectRows,
    DescribeTable,
    RenameTable,
    AlterTable,
    TruncateTable,
    DropTable,
}

/// A field of the table edit dialogs.
#[derive(Debug, Clone, Copy, PartialEq, Eq, Structural)]
pub enum TableEditField {
    NewName,
}

/// A section of the main navigation.
#[derive(Debug, Clone, Copy, PartialEq, Eq, Structural)]
pub enum Section {
    Databases,
    QueryExplorer,
    Tables,
    Functions,
    History,
    Settings,
    Support,
}

impl Section {
    pub open spec fn label_spec(self) -> Seq<char> {
        match self {
            Section::Databases => "Databases"@,
            Section::QueryExplorer => "Query Explorer"@,
            Section::Tables => "Tables"@,
            Section::Functions => "Functions"@,
            Section::History => "History"@,
            Section::Settings => "Settings"@,
            Section::Support => "Support"@,
        }
    }

    /// The title of the section.
    pub fn label(self) -> (r: &'static str)
        ensures
            r@ == self.label_spec(),
    {
        match self {
            Section::Databases => "Databases",
            Section::QueryExplorer => "Query Explorer",
            Section::Tables => "Tables",
            Section::Functions => "Functions",
            Section::History => "History",
            Section::Settings => "Settings",
            Section::Support => "Support",
        }
    }
}

/// An action of the quick-action bar.
#[derive(Debug, Clone, Copy, PartialEq, Eq, Structural)]
pub enum QuickAction {
    NewConnection,
    NewQuery,
    ImportSql,
    ExportSql,
    RefreshData,
}

impl QuickAction {
    /// The actions of the bar, in order.
    pub fn primary() -> (r: [QuickAction; 5])
        ensures
            r@ == seq![
                QuickAction::NewConnection,
                QuickAction::NewQuery,
                QuickAction::ImportSql,
                QuickAction::ExportSql,
                QuickAction::RefreshData,
            ],
    {
        let r = [
            QuickAction::NewConnection,
            QuickAction::NewQuery,
            QuickAction::ImportSql,
            QuickAction::ExportSql,
            QuickAction::RefreshData,
        ];
        assert(r@ =~= seq![
            QuickAction::NewConnection,
            QuickAction::NewQuery,
            QuickAction::ImportSql,
            QuickAction::ExportSql,
            QuickAction::RefreshData,
        ]);
        r
    }

    pub open spec fn label_spec(self) -> Seq<char> {
        match self {
            QuickAction::NewConnection => "New Connection"@,
            QuickAction::NewQuery => "New Query"@,
            QuickAction::ImportSql => "Import SQL"@,
            QuickAction::ExportSql => "Export SQL"@,
            QuickAction::RefreshData => "Refresh"@,
        }
    }

    /// The caption of the action's button.
    pub fn label(self) -> (r: &'static str)
        ensures
            r@ == self.label_spec(),
    {
        match self {
            QuickAction::NewConnection => "New Connection",
            QuickAction::NewQuery => "New Query",
            QuickAction::ImportSql => "Import SQL",
            QuickAction::ExportSql => "Export SQL",
            QuickAction::RefreshData => "Refresh",
        }
    }

    pub open spec fn status_message_spec(self) -> Seq<char> {
        match self {
            QuickAction::NewConnection => "Connection manager requested. Engine-specific parameters are next."@,
            QuickAction::NewQuery => "Query editor requested. SQL completion and formatting are next."@,
            QuickAction::ImportSql => "SQL import requested. File selection and execution preview are next."@,
            QuickAction::ExportSql => "SQL export requested. Schema/data export options are next."@,
            QuickAction::RefreshData => "Refresh requested. No active result set is connected yet."@,
        }
    }

    /// The status line shown when the action is requested.
    pub fn status_message(self) -> (r: &'static str)
        ensures
            r@ == self.status_message_spec(),
    {
        match self {
            QuickAction::NewConnection => {
                "Connection manager requested. Engine-specific parameters are next."
            },
            QuickAction::NewQuery => "Query editor requested. SQL completion and formatting are next.",
            QuickAction::ImportSql => {
                "SQL import requested. File selection and execution preview are next."
            },
            QuickAction::ExportSql => "SQL export requested. Schema/data export options are next.",
            QuickAction::RefreshData => "Refresh requested. No active result set is connected yet.",
        }
    }
}

/// A language of the interface.
#[derive(Debug, Clone, Copy, PartialEq, Eq, Structural)]
pub enum Language {
    EnUs,
    FrFr,
    RuRu,
    ZhCn,
    JaJp,
}

impl Language {
    /// Every language, in the order of the settings list.
    pub fn all() -> (r: [Language; 5])
        ensures
            r@ == seq![
                Language::EnUs,
                Language::FrFr,
                Language::RuRu,
                Language::ZhCn,
                Language::JaJp,
            ],
    {
        let r = [Language::EnUs, Language::FrFr, Language::RuRu, Language::ZhCn, Language::JaJp];
        assert(r@ =~= seq![
            Language::EnUs,
            Language::FrFr,
            Language::RuRu,
            Language::ZhCn,
            Language::JaJp,
        ]);
        r
    }

    pub open spec fn label_spec(self) -> Seq<char> {
        match self {
            Language::EnUs => "English"@,
            Language::FrFr => "French"@,
            Language::RuRu => "Russian"@,
            Language::ZhCn => "Chinese"@,
            Language::JaJp => "Japanese"@,
        }
    }

    /// The English name of the language.
    pub fn label(self) -> (r: &'static str)
        ensures
            r@ == self.label_spec(),
    {
        match self {
            Language::EnUs => "English",
            Language::FrFr => "French",
            Language::RuRu => "Russian",
            Language::ZhCn => "Chinese",
            Language::JaJp => "Japanese",
        }
    }

    pub open spec fn local_label_spec(self) -> Seq<char> {
        match self {
            Language::EnUs => "english"@,
            Language::FrFr => "français"@,
            Language::RuRu => "русский"@,
            Language::ZhCn => "中文"@,
            Language::JaJp => "日本語"@,
        }
    }

    /// The name of the language in that language.
    pub fn local_label(self) -> (r: &'static str)
        ensures
            r@ == self.local_label_spec(),
    {
        match self {
            Language::EnUs => "english",
            Language::FrFr => "français",
            Language::RuRu => "русский",
            Language::ZhCn => "中文",
            Language::JaJp => "日本語",
        }
    }

    /// The text the language is shown by: its English name.
    pub fn display_name(self) -> (r: String)
        ensures
            r@ == self.label_spec(),
    {
        owned(self.label())
    }
}

/// The colour scheme of the interface.
#[derive(Debug, Clone, Copy, PartialEq, Eq, Structural)]
pub enum ThemeMode {
    Dark,
    Light,
}

impl ThemeMode {
    pub open spec fn toggle_spec(self) -> ThemeMode {
        match self {
            ThemeMode::Dark => ThemeMode::Light,
            ThemeMode::Light => ThemeMode::Dark,
        }
    }

    /// The other scheme.
    pub fn toggle(self) -> (r: Self)
        ensures
            r == self.toggle_spec(),
            r != self,
    {
        match self {
            ThemeMode::Dark => ThemeMode::Light,
            ThemeMode::Light => ThemeMode::Dark,
        }
    }

    pub open spec fn label_spec(self) -> Seq<char> {
        match self {
            ThemeMode::Dark => "Dark"@,
            ThemeMode::Light => "Light"@,
        }
    }

    /// The name of the scheme.
    pub fn label(self) -> (r: &'static str)
        ensures
            r@ == self.label_spec(),
    {
        match self {
            ThemeMode::Dark => "Dark",
            ThemeMode::Light => "Light",
        }
    }
}

/// Switching the theme twice gives the theme back.
pub proof fn theme_toggle_twice(mode: ThemeMode)
    ensures
        mode.toggle_spec().toggle_spec() == mode,
{
}

/// The choices the user keeps between runs.
#[derive(Debug)]
pub struct AppPreferences {
    pub language: String,
    pub theme: String,
    pub ui_font: String,
}

impl Clone for AppPreferences {
    fn clone(&self) -> (r: Self)
        ensures
            r == *self,
    {
        AppPreferences {
            language: self.language.clone(),
            theme: self.theme.clone(),
            ui_font: self.ui_font.clone(),
        }
    }
}

impl Default for AppPreferences {
    /// Chinese, the dark theme and the platform's font.
    fn default() -> (r: Self)
        ensures
            r.language@ == "zh_cn"@,
            r.theme@ == "dark"@,
            r.ui_font@ == "platform_default"@,
    {
        AppPreferences {
            language: owned("zh_cn"),
            theme: owned("dark"),
            ui_font: owned("platform_default"),
        }
    }
}

} // verus!
