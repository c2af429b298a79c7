//! Post-draft review: notes on the locked allied composition, its main win
//! condition and a coaching call.
use vstd::prelude::*;

use crate::application::analysis::{analyze_composition, composition_of, profile_totals_fit};
use crate::domain::composition::{CompositionSnapshot, CompositionSnapshotView, DraftAlertView};
use crate::domain::draft::{DraftState, DraftStateView};
use crate::text::{concat, decimal, decimal_string, same_text};

verus! {

/// The draft to review.
#[derive(Debug, Clone)]
pub struct DraftReviewRequest {
    pub draft_state: DraftState,
}

/// The review of a locked draft.
#[derive(Debug, Clone)]
pub struct DraftReviewResponse {
    pub composition: CompositionSnapshot,
    pub win_condition: String,
    pub draft_call: String,
    pub review_notes: Vec<String>,
}

pub struct DraftReviewResponseView {
    pub composition: CompositionSnapshotView,
    pub win_condition: Seq<char>,
    pub draft_call: Seq<char>,
    pub review_notes: Seq<Seq<char>>,
}

impl View for DraftReviewResponse {
    type V = DraftReviewResponseView;

    open spec fn view(&self) -> DraftReviewResponseView {
        DraftReviewResponseView {
            composition: self.composition@,
            win_condition: self.win_condition@,
            draft_call: self.draft_call@,
            review_notes: self.review_notes.deep_view(),
        }
    }
}

pub open spec fn patch_note_text(patch: Seq<char>, identity_count: nat) -> Seq<char> {
    "Patch "@ + patch + " : la draft alliée montre "@ + decimal(identity_count) + " identité(s) clés."@
}

pub open spec fn tempo_note_text() -> Seq<char> {
    "La draft peut dicter le tempo autour des objectifs grâce à plusieurs points d’entrée en teamfight."@
}

pub open spec fn mid_game_note_text() -> Seq<char> {
    "Le plan de jeu post-draft doit valoriser les fenêtres du mid game avant que l’adversaire ne scale."@
}

pub open spec fn remaining_alerts_note_text(count: nat) -> Seq<char> {
    decimal(count) + " alerte(s) structurelle(s) restent présentes dans l’état final."@
}

/// The patch note, then a tempo note with three or more engage, a mid-game note
/// with scaling at one or less, and the count of alerts when there are any.
pub open spec fn review_notes_of(draft: DraftStateView, composition: CompositionSnapshotView) -> Seq<Seq<char>> {
    seq![patch_note_text(draft.patch, composition.identities.len())] + (if composition.profile.engage >= 3 {
        seq![tempo_note_text()]
    } else {
        Seq::empty()
    }) + (if composition.profile.scaling <= 1 {
        seq![mid_game_note_text()]
    } else {
        Seq::empty()
    }) + (if composition.alerts.len() > 0 {
        seq![remaining_alerts_note_text(composition.alerts.len())]
    } else {
        Seq::empty()
    })
}

pub fn build_review_notes(draft_state: &DraftState, composition: &CompositionSnapshot) -> (r: Vec<
    String,
>)
    ensures
        r.deep_view() == review_notes_of(draft_state@, composition@),
{
    let mut first = concat("Patch ", draft_state.patch.as_str());
    first.append(" : la draft alliée montre ");
    first.append(decimal_string(composition.identities.len() as u64).as_str());
    first.append(" identité(s) clés.");
    let mut notes: Vec<String> = Vec::new();
    notes.push(first);
    if composition.profile.engage >= 3 {
        notes.push(
            String::from_str(
                "La draft peut dicter le tempo autour des objectifs grâce à plusieurs points d’entrée en teamfight.",
            ),
        );
    }
    if composition.profile.scaling <= 1 {
        notes.push(
            String::from_str(
                "Le plan de jeu post-draft doit valoriser les fenêtres du mid game avant que l’adversaire ne scale.",
            ),
        );
    }
    if composition.alerts.len() > 0 {
        let count = decimal_string(composition.alerts.len() as u64);
        notes.push(
            concat(count.as_str(), " alerte(s) structurelle(s) restent présentes dans l’état final."),
        );
    }
    assert(notes.deep_view() =~= review_notes_of(draft_state@, composition@));
    notes
}

pub open spec fn front_to_back_win_text() -> Seq<char> {
    "Win condition principale : sécuriser la vision, forcer les 5v5 cadrés et jouer les objectifs avec une ligne avant disciplinée."@
}

pub open spec fn catch_win_text() -> Seq<char> {
    "Win condition principale : utiliser les timings de vision pour trouver des catches puis convertir en objectifs neutres."@
}

pub open spec fn lane_tempo_win_text() -> Seq<char> {
    "Win condition principale : jouer le tempo de lane et protéger les side waves jusqu’au prochain pic d’objets."@
}

/// Front-to-back with three or more front-to-back champions, catches with two
/// or more pick champions, lane tempo otherwise.
pub open spec fn review_win_condition_text(composition: CompositionSnapshotView) -> Seq<char> {
    if composition.profile.front_to_back >= 3 {
        front_to_back_win_text()
    } else if composition.profile.pick >= 2 {
        catch_win_text()
    } else {
        lane_tempo_win_text()
    }
}

/// The review gives the front-to-back win condition exactly when three or
/// more allied champions play front-to-back; with fewer, and fewer than two
/// pick champions, it gives the lane-tempo win condition, and with two or
/// more pick champions the catch win condition.
pub proof fn lemma_win_condition_follows_profile(draft: DraftStateView)
    ensures
        (review_of(draft).win_condition
            == "Win condition principale : sécuriser la vision, forcer les 5v5 cadrés et jouer les objectifs avec une ligne avant disciplinée."@)
            <==> composition_of(draft).profile.front_to_back >= 3,
        composition_of(draft).profile.front_to_back < 3 && composition_of(draft).profile.pick < 2
            ==> review_of(draft).win_condition
            == "Win condition principale : jouer le tempo de lane et protéger les side waves jusqu’au prochain pic d’objets."@,
        composition_of(draft).profile.front_to_back < 3 && composition_of(draft).profile.pick >= 2
            ==> review_of(draft).win_condition
            == "Win condition principale : utiliser les timings de vision pour trouver des catches puis convertir en objectifs neutres."@,
{
    reveal_strlit("Win condition principale : sécuriser la vision, forcer les 5v5 cadrés et jouer les objectifs avec une ligne avant disciplinée.");
    reveal_strlit("Win condition principale : utiliser les timings de vision pour trouver des catches puis convertir en objectifs neutres.");
    reveal_strlit("Win condition principale : jouer le tempo de lane et protéger les side waves jusqu’au prochain pic d’objets.");
    assert(front_to_back_win_text()[27] != catch_win_text()[27]);
    assert(front_to_back_win_text()[27] != lane_tempo_win_text()[27]);
}

pub fn build_win_condition(composition: &CompositionSnapshot) -> (r: String)
    ensures
        r@ == review_win_condition_text(composition@),
{
    if composition.profile.front_to_back >= 3 {
        String::from_str(
            "Win condition principale : sécuriser la vision, forcer les 5v5 cadrés et jouer les objectifs avec une ligne avant disciplinée.",
        )
    } else if composition.profile.pick >= 2 {
        String::from_str(
            "Win condition principale : utiliser les timings de vision pour trouver des catches puis convertir en objectifs neutres.",
        )
    } else {
        String::from_str(
            "Win condition principale : jouer le tempo de lane et protéger les side waves jusqu’au prochain pic d’objets.",
        )
    }
}

/// Some alert carries the given code.
pub open spec fn has_alert_code(alerts: Seq<DraftAlertView>, code: Seq<char>) -> bool {
    exists|i: int| 0 <= i < alerts.len() && #[trigger] alerts[i].code == code
}

pub open spec fn setup_dependent_call_text() -> Seq<char> {
    "Review : composition jouable mais dépendante des setups de vision, avec peu d’outils pour forcer l’entrée en combat."@
}

pub open spec fn balanced_call_text() -> Seq<char> {
    "Review : draft équilibrée, capable de temporiser puis d’imposer un front-to-back propre sur les objectifs majeurs."@
}

pub open spec fn proactive_call_text() -> Seq<char> {
    "Review : draft proactive qui doit conserver l’initiative avant les gros spikes adverses."@
}

/// Setup-dependent when engage is missing, balanced with scaling of three or
/// more, proactive otherwise.
pub open spec fn review_call_text(composition: CompositionSnapshotView) -> Seq<char> {
    if has_alert_code(composition.alerts, "missing_primary_engage"@) {
        setup_dependent_call_text()
    } else if composition.profile.scaling >= 3 {
        balanced_call_text()
    } else {
        proactive_call_text()
    }
}

pub fn build_draft_call(composition: &CompositionSnapshot) -> (r: String)
    ensures
        r@ == review_call_text(composition@),
{
    let ghost av = composition.alerts.deep_view();
    let mut missing_engage = false;
    for i in 0..composition.alerts.len()
        invariant
            av == composition.alerts.deep_view(),
            missing_engage <==> exists|k: int| 0 <= k < i && #[trigger] av[k].code == "missing_primary_engage"@,
    {
        assert(av[i as int].code == composition.alerts@[i as int].code@);
        if same_text(composition.alerts[i].code.as_str(), "missing_primary_engage") {
            missing_engage = true;
        }
    }
    if missing_engage {
        String::from_str(
            "Review : composition jouable mais dépendante des setups de vision, avec peu d’outils pour forcer l’entrée en combat.",
        )
    } else if composition.profile.scaling >= 3 {
        String::from_str(
            "Review : draft équilibrée, capable de temporiser puis d’imposer un front-to-back propre sur les objectifs majeurs.",
        )
    } else {
        String::from_str(
            "Review : draft proactive qui doit conserver l’initiative avant les gros spikes adverses.",
        )
    }
}

/// The review of a draft: its composition, notes, win condition and call.
pub open spec fn review_of(draft: DraftStateView) -> DraftReviewResponseView {
    let composition = composition_of(draft);
    DraftReviewResponseView {
        composition,
        win_condition: review_win_condition_text(composition),
        draft_call: review_call_text(composition),
        review_notes: review_notes_of(draft, composition),
    }
}

pub fn review_draft(request: DraftReviewRequest) -> (r: DraftReviewResponse)
    requires
        profile_totals_fit(request.draft_state.ally@),
    ensures
        r@ == review_of(request.draft_state@),
{
    let composition = analyze_composition(&request.draft_state);
    let review_notes = build_review_notes(&request.draft_state, &composition);
    let win_condition = build_win_condition(&composition);
    let draft_call = build_draft_call(&composition);
    DraftReviewResponse { composition, win_condition, draft_call, review_notes }
}

} // verus!
