//! The team configuration shown by the desktop shell, and its default.
use vstd::prelude::*;

use crate::domain::composition::CompositionIdentity;
use crate::text::{owned_strings, texts_of};

verus! {

/// A lane as the interface names it.
#[derive(Debug, Clone, Copy, PartialEq, Eq, Structural)]
pub enum UiRole {
    Top,
    Jungle,
    Mid,
    Bottom,
    Support,
}

/// One player of the configured team.
#[derive(Debug, Clone, PartialEq, Eq)]
pub struct UiTeamMember {
    pub id: String,
    pub handle: String,
    pub role: UiRole,
    pub comfort_picks: Vec<String>,
    pub focus: String,
}

/// Mathematical value of a [`UiTeamMember`].
pub struct UiTeamMemberView {
    pub id: Seq<char>,
    pub handle: Seq<char>,
    pub role: UiRole,
    pub comfort_picks: Seq<Seq<char>>,
    pub focus: Seq<char>,
}

impl View for UiTeamMember {
    type V = UiTeamMemberView;

    open spec fn view(&self) -> UiTeamMemberView {
        UiTeamMemberView {
            id: self.id@,
            handle: self.handle@,
            role: self.role,
            comfort_picks: self.comfort_picks.deep_view(),
            focus: self.focus@,
        }
    }
}

impl DeepView for UiTeamMember {
    type V = UiTeamMemberView;

    open spec fn deep_view(&self) -> UiTeamMemberView {
        self@
    }
}

/// The configuration of the team being coached.
#[derive(Debug, Clone, PartialEq, Eq)]
pub struct AppConfig {
    pub team_name: String,
    pub patch: String,
    pub preferred_style: String,
    pub target_identity: Vec<CompositionIdentity>,
    pub members: Vec<UiTeamMember>,
}

/// Mathematical value of an [`AppConfig`].
pub struct AppConfigView {
    pub team_name: Seq<char>,
    pub patch: Seq<char>,
    pub preferred_style: Seq<char>,
    pub target_identity: Seq<CompositionIdentity>,
    pub members: Seq<UiTeamMemberView>,
}

impl View for AppConfig {
    type V = AppConfigView;

    open spec fn view(&self) -> AppConfigView {
        AppConfigView {
            team_name: self.team_name@,
            patch: self.patch@,
            preferred_style: self.preferred_style@,
            target_identity: self.target_identity@,
            members: self.members.deep_view(),
        }
    }
}

/// A configuration to save.
#[derive(Debug, Clone, PartialEq, Eq)]
pub struct SaveConfigPayload {
    pub config: AppConfig,
}

pub open spec fn member_view(
    id: Seq<char>,
    handle: Seq<char>,
    role: UiRole,
    comfort_picks: Seq<Seq<char>>,
    focus: Seq<char>,
) -> UiTeamMemberView {
    UiTeamMemberView { id, handle, role, comfort_picks, focus }
}

/// The configuration used until one is saved.
pub open spec fn default_config_view() -> AppConfigView {
    AppConfigView {
        team_name: "Drafting Laboratory"@,
        patch: "15.6"@,
        preferred_style: "Front-to-back propre avec enclenchement fort"@,
        target_identity: seq![
            CompositionIdentity::Engage,
            CompositionIdentity::FrontToBack,
            CompositionIdentity::ProtectCarry,
        ],
        members: seq![
            member_view("top-alto"@, "Alto"@, UiRole::Top, seq!["Ornn"@, "Jax"@, "Ksante"@], "frontline stable"@),
            member_view("jungle-mira"@, "Mira"@, UiRole::Jungle, seq!["Sejuani"@, "Vi"@, "Poppy"@], "setup engage"@),
            member_view("mid-zen"@, "Zen"@, UiRole::Mid, seq!["Ahri"@, "Orianna"@, "Taliyah"@], "prio mid + picks"@),
            member_view("adc-lyra"@, "Lyra"@, UiRole::Bottom, seq!["Smolder"@, "Jinx"@, "Zeri"@], "late game carry"@),
            member_view("sup-kai"@, "Kai"@, UiRole::Support, seq!["Nautilus"@, "Renata"@, "Rell"@], "vision control"@),
        ],
    }
}

fn member(id: &str, handle: &str, role: UiRole, comfort_picks: &[&str], focus: &str) -> (r: UiTeamMember)
    ensures
        r@ == member_view(id@, handle@, role, texts_of(comfort_picks@), focus@),
{
    UiTeamMember {
        id: String::from_str(id),
        handle: String::from_str(handle),
        role,
        comfort_picks: owned_strings(comfort_picks),
        focus: String::from_str(focus),
    }
}

/// The configuration used until one is saved.
pub fn default_config() -> (r: AppConfig)
    ensures
        r@ == default_config_view(),
{
    let mut members: Vec<UiTeamMember> = Vec::new();
    let picks: &[&str] = &["Ornn", "Jax", "Ksante"];
    assert(texts_of(picks@) =~= seq!["Ornn"@, "Jax"@, "Ksante"@]);
    members.push(member("top-alto", "Alto", UiRole::Top, picks, "frontline stable"));
    let picks: &[&str] = &["Sejuani", "Vi", "Poppy"];
    assert(texts_of(picks@) =~= seq!["Sejuani"@, "Vi"@, "Poppy"@]);
    members.push(member("jungle-mira", "Mira", UiRole::Jungle, picks, "setup engage"));
    let picks: &[&str] = &["Ahri", "Orianna", "Taliyah"];
    assert(texts_of(picks@) =~= seq!["Ahri"@, "Orianna"@, "Taliyah"@]);
    members.push(member("mid-zen", "Zen", UiRole::Mid, picks, "prio mid + picks"));
    let picks: &[&str] = &["Smolder", "Jinx", "Zeri"];
    assert(texts_of(picks@) =~= seq!["Smolder"@, "Jinx"@, "Zeri"@]);
    members.push(member("adc-lyra", "Lyra", UiRole::Bottom, picks, "late game carry"));
    let picks: &[&str] = &["Nautilus", "Renata", "Rell"];
    assert(texts_of(picks@) =~= seq!["Nautilus"@, "Renata"@, "Rell"@]);
    members.push(member("sup-kai", "Kai", UiRole::Support, picks, "vision control"));
    let mut target_identity: Vec<CompositionIdentity> = Vec::new();
    target_identity.push(CompositionIdentity::Engage);
    target_identity.push(CompositionIdentity::FrontToBack);
    target_identity.push(CompositionIdentity::ProtectCarry);
    let r = AppConfig {
        team_name: String::from_str("Drafting Laboratory"),
        patch: String::from_str("15.6"),
        preferred_style: String::from_str("Front-to-back propre avec enclenchement fort"),
        target_identity,
        members,
    };
    assert(r@.target_identity =~= default_config_view().target_identity);
    assert(r@.members =~= default_config_view().members);
    r
}

} // verus!
