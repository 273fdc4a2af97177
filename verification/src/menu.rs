//! Menu availability rules.
//!
//! The application greys menu entries in and out as the user moves between
//! the glyph list and the editing views.  Each command is tied to a fixed
//! rule saying in which editor states it is available; the table of rules
//! and the per-command decision are computed here.

use vstd::prelude::*;

verus! {

/// The editor state the application is currently in.
#[derive(Clone, Copy, PartialEq, Eq, Structural, Debug)]
pub enum EditStatus {
    /// A single glyph component is being edited.
    Edit,
    /// A whole glyph is being edited.
    Glyph,
    /// A background picture is being traced.
    Pic,
    /// The glyph list is shown; no editor is open.
    List,
}

/// A command reachable from the application menu.
#[derive(Clone, Copy, PartialEq, Eq, Structural, Debug)]
pub enum MenuCommand {
    About,
    CreateFile,
    OpenFile,
    SaveFile,
    SaveAs,
    Undo,
    Redo,
    Cut,
    Copy,
    Paste,
    Delete,
    ImportFontFile,
    ImportGlyphs,
    ImportPic,
    ImportSvg,
    ExportFontFile,
    ExportGlyphs,
    ExportJpeg,
    ExportPng,
    ExportSvg,
    AddCharacter,
    AddIcon,
    FontSettings,
    PreferenceSettings,
    LanguageSettings,
    Template1,
    RemoveOverlap,
}

/// The states in which a command is available.
#[derive(Clone, Copy, PartialEq, Eq, Structural, Debug)]
pub enum EnableRule {
    /// Available in every state.
    Always,
    /// Available only while editing (single component or whole glyph).
    AtEdit,
    /// Available only from the glyph list, not from any editing view.
    AtList,
    /// The rule for template commands: available only from the glyph list.
    TemplateAtList,
}

pub open spec fn spec_enable(status: EditStatus) -> bool {
    true
}

pub open spec fn spec_enable_at_edit(status: EditStatus) -> bool {
    status == EditStatus::Edit || status == EditStatus::Glyph
}

pub open spec fn spec_enable_at_list(status: EditStatus) -> bool {
    !(status == EditStatus::Edit || status == EditStatus::Glyph || status == EditStatus::Pic)
}

pub open spec fn spec_template_enable(status: EditStatus) -> bool {
    !(status == EditStatus::Edit || status == EditStatus::Glyph || status == EditStatus::Pic)
}

/// Commands under this rule are available in every state.
pub fn enable(status: EditStatus) -> (r: bool)
    ensures
        r == spec_enable(status),
{
    true
}

/// Commands under this rule act on an open editor, so they are available
/// only in the two editing states.
pub fn enable_at_edit(status: EditStatus) -> (r: bool)
    ensures
        r == spec_enable_at_edit(status),
{
    match status {
        EditStatus::Edit => true,
        EditStatus::Glyph => true,
        _ => false,
    }
}

/// Commands under this rule act on the project as a whole, so they are
/// available only outside the editing and picture views.
pub fn enable_at_list(status: EditStatus) -> (r: bool)
    ensures
        r == spec_enable_at_list(status),
{
    match status {
        EditStatus::Edit => false,
        EditStatus::Glyph => false,
        EditStatus::Pic => false,
        _ => true,
    }
}

/// Template commands are available only outside the editing and picture
/// views, like the list-bound commands.
pub fn template_enable(status: EditStatus) -> (r: bool)
    ensures
        r == spec_template_enable(status),
{
    match status {
        EditStatus::Edit => false,
        EditStatus::Glyph => false,
        EditStatus::Pic => false,
        _ => true,
    }
}

/// The rule each menu command is tied to.
pub open spec fn spec_rule_for(cmd: MenuCommand) -> EnableRule {
    match cmd {
        MenuCommand::About => EnableRule::Always,
        MenuCommand::CreateFile => EnableRule::AtList,
        MenuCommand::OpenFile => EnableRule::AtList,
        MenuCommand::SaveFile => EnableRule::Always,
        MenuCommand::SaveAs => EnableRule::Always,
        MenuCommand::Undo => EnableRule::AtEdit,
        MenuCommand::Redo => EnableRule::AtEdit,
        MenuCommand::Cut => EnableRule::AtEdit,
        MenuCommand::Copy => EnableRule::AtEdit,
        MenuCommand::Paste => EnableRule::AtEdit,
        MenuCommand::Delete => EnableRule::AtEdit,
        MenuCommand::ImportFontFile => EnableRule::AtList,
        MenuCommand::ImportGlyphs => EnableRule::AtList,
        MenuCommand::ImportPic => EnableRule::AtEdit,
        MenuCommand::ImportSvg => EnableRule::AtEdit,
        MenuCommand::ExportFontFile => EnableRule::Always,
        MenuCommand::ExportGlyphs => EnableRule::AtList,
        MenuCommand::ExportJpeg => EnableRule::AtEdit,
        MenuCommand::ExportPng => EnableRule::AtEdit,
        MenuCommand::ExportSvg => EnableRule::AtEdit,
        MenuCommand::AddCharacter => EnableRule::AtList,
        MenuCommand::AddIcon => EnableRule::AtList,
        MenuCommand::FontSettings => EnableRule::Always,
        MenuCommand::PreferenceSettings => EnableRule::Always,
        MenuCommand::LanguageSettings => EnableRule::Always,
        MenuCommand::Template1 => EnableRule::TemplateAtList,
        MenuCommand::RemoveOverlap => EnableRule::AtEdit,
    }
}

/// What a rule decides in a given state.
pub open spec fn spec_rule_allows(rule: EnableRule, status: EditStatus) -> bool {
    match rule {
        EnableRule::Always => spec_enable(status),
        EnableRule::AtEdit => spec_enable_at_edit(status),
        EnableRule::AtList => spec_enable_at_list(status),
        EnableRule::TemplateAtList => spec_template_enable(status),
    }
}

/// Whether a menu command is available in a given state.
pub open spec fn spec_menu_enabled(cmd: MenuCommand, status: EditStatus) -> bool {
    spec_rule_allows(spec_rule_for(cmd), status)
}

/// Looks a command's rule up in the table.
pub fn rule_for(cmd: MenuCommand) -> (r: EnableRule)
    ensures
        r == spec_rule_for(cmd),
{
    match cmd {
        MenuCommand::About => EnableRule::Always,
        MenuCommand::CreateFile => EnableRule::AtList,
        MenuCommand::OpenFile => EnableRule::AtList,
        MenuCommand::SaveFile => EnableRule::Always,
        MenuCommand::SaveAs => EnableRule::Always,
        MenuCommand::Undo => EnableRule::AtEdit,
        MenuCommand::Redo => EnableRule::AtEdit,
        MenuCommand::Cut => EnableRule::AtEdit,
        MenuCommand::Copy => EnableRule::AtEdit,
        MenuCommand::Paste => EnableRule::AtEdit,
        MenuCommand::Delete => EnableRule::AtEdit,
        MenuCommand::ImportFontFile => EnableRule::AtList,
        MenuCommand::ImportGlyphs => EnableRule::AtList,
        MenuCommand::ImportPic => EnableRule::AtEdit,
        MenuCommand::ImportSvg => EnableRule::AtEdit,
        MenuCommand::ExportFontFile => EnableRule::Always,
        MenuCommand::ExportGlyphs => EnableRule::AtList,
        MenuCommand::ExportJpeg => EnableRule::AtEdit,
        MenuCommand::ExportPng => EnableRule::AtEdit,
        MenuCommand::ExportSvg => EnableRule::AtEdit,
        MenuCommand::AddCharacter => EnableRule::AtList,
        MenuCommand::AddIcon => EnableRule::AtList,
        MenuCommand::FontSettings => EnableRule::Always,
        MenuCommand::PreferenceSettings => EnableRule::Always,
        MenuCommand::LanguageSettings => EnableRule::Always,
        MenuCommand::Template1 => EnableRule::TemplateAtList,
        MenuCommand::RemoveOverlap => EnableRule::AtEdit,
    }
}

/// Applies a rule to a state.
pub fn rule_allows(rule: EnableRule, status: EditStatus) -> (r: bool)
    ensures
        r == spec_rule_allows(rule, status),
{
    match rule {
        EnableRule::Always => enable(status),
        EnableRule::AtEdit => enable_at_edit(status),
        EnableRule::AtList => enable_at_list(status),
        EnableRule::TemplateAtList => template_enable(status),
    }
}

/// Decides whether one menu command is available in a given state.
pub fn menu_item_enabled(cmd: MenuCommand, status: EditStatus) -> (r: bool)
    ensures
        r == spec_menu_enabled(cmd, status),
{
    rule_allows(rule_for(cmd), status)
}

/// The full rule table, one entry per menu command, in menu order.
pub open spec fn spec_menu_enabled_map() -> Seq<(MenuCommand, EnableRule)> {
    seq![
        (MenuCommand::About, EnableRule::Always),
        (MenuCommand::CreateFile, EnableRule::AtList),
        (MenuCommand::OpenFile, EnableRule::AtList),
        (MenuCommand::SaveFile, EnableRule::Always),
        (MenuCommand::SaveAs, EnableRule::Always),
        (MenuCommand::Undo, EnableRule::AtEdit),
        (MenuCommand::Redo, EnableRule::AtEdit),
        (MenuCommand::Cut, EnableRule::AtEdit),
        (MenuCommand::Copy, EnableRule::AtEdit),
        (MenuCommand::Paste, EnableRule::AtEdit),
        (MenuCommand::Delete, EnableRule::AtEdit),
        (MenuCommand::ImportFontFile, EnableRule::AtList),
        (MenuCommand::ImportGlyphs, EnableRule::AtList),
        (MenuCommand::ImportPic, EnableRule::AtEdit),
        (MenuCommand::ImportSvg, EnableRule::AtEdit),
        (MenuCommand::ExportFontFile, EnableRule::Always),
        (MenuCommand::ExportGlyphs, EnableRule::AtList),
        (MenuCommand::ExportJpeg, EnableRule::AtEdit),
        (MenuCommand::ExportPng, EnableRule::AtEdit),
        (MenuCommand::ExportSvg, EnableRule::AtEdit),
        (MenuCommand::AddCharacter, EnableRule::AtList),
        (MenuCommand::AddIcon, EnableRule::AtList),
        (MenuCommand::FontSettings, EnableRule::Always),
        (MenuCommand::PreferenceSettings, EnableRule::Always),
        (MenuCommand::LanguageSettings, EnableRule::Always),
        (MenuCommand::Template1, EnableRule::TemplateAtList),
        (MenuCommand::RemoveOverlap, EnableRule::AtEdit),
    ]
}

/// Builds the table tying each menu command to its availability rule.
pub fn build_menu_enabled_map() -> (r: Vec<(MenuCommand, EnableRule)>)
    ensures
        r@ == spec_menu_enabled_map(),
        forall|i: int|
            0 <= i < r@.len() ==> #[trigger] r@[i].1 == spec_rule_for(r@[i].0),
{
    let mut r: Vec<(MenuCommand, EnableRule)> = Vec::new();
    r.push((MenuCommand::About, EnableRule::Always));
    r.push((MenuCommand::CreateFile, EnableRule::AtList));
    r.push((MenuCommand::OpenFile, EnableRule::AtList));
    r.push((MenuCommand::SaveFile, EnableRule::Always));
    r.push((MenuCommand::SaveAs, EnableRule::Always));
    r.push((MenuCommand::Undo, EnableRule::AtEdit));
    r.push((MenuCommand::Redo, EnableRule::AtEdit));
    r.push((MenuCommand::Cut, EnableRule::AtEdit));
    r.push((MenuCommand::Copy, EnableRule::AtEdit));
    r.push((MenuCommand::Paste, EnableRule::AtEdit));
    r.push((MenuCommand::Delete, EnableRule::AtEdit));
    r.push((MenuCommand::ImportFontFile, EnableRule::AtList));
    r.push((MenuCommand::ImportGlyphs, EnableRule::AtList));
    r.push((MenuCommand::ImportPic, EnableRule::AtEdit));
    r.push((MenuCommand::ImportSvg, EnableRule::AtEdit));
    r.push((MenuCommand::ExportFontFile, EnableRule::Always));
    r.push((MenuCommand::ExportGlyphs, EnableRule::AtList));
    r.push((MenuCommand::ExportJpeg, EnableRule::AtEdit));
    r.push((MenuCommand::ExportPng, EnableRule::AtEdit));
    r.push((MenuCommand::ExportSvg, EnableRule::AtEdit));
    r.push((MenuCommand::AddCharacter, EnableRule::AtList));
    r.push((MenuCommand::AddIcon, EnableRule::AtList));
    r.push((MenuCommand::FontSettings, EnableRule::Always));
    r.push((MenuCommand::PreferenceSettings, EnableRule::Always));
    r.push((MenuCommand::LanguageSettings, EnableRule::Always));
    r.push((MenuCommand::Template1, EnableRule::TemplateAtList));
    r.push((MenuCommand::RemoveOverlap, EnableRule::AtEdit));
    proof {
        assert(r@ =~= spec_menu_enabled_map());
    }
    r
}

/// Decides, for every listed menu item, whether it is available in the
/// given state.  The caller walks the menu and applies each decision to
/// the matching item.
pub fn toggle_menu_decisions(items: &Vec<MenuCommand>, status: EditStatus) -> (r: Vec<bool>)
    ensures
        r@.len() == items@.len(),
        forall|i: int|
            0 <= i < items@.len() ==> #[trigger] r@[i] == spec_menu_enabled(items@[i], status),
{
    let mut r: Vec<bool> = Vec::new();
    let mut k: usize = 0;
    while k < items.len()
        invariant
            k <= items@.len(),
            r@.len() == k,
            forall|i: int|
                0 <= i < k ==> #[trigger] r@[i] == spec_menu_enabled(items@[i], status),
        decreases items@.len() - k,
    {
        let e = menu_item_enabled(items[k], status);
        r.push(e);
        k = k + 1;
    }
    r
}

} // verus!
