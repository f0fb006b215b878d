use vstd::prelude::*;

use rand::rngs::StdRng;
use rand::Rng;

use crate::config::{phrases_view, Config, ConfigView, Phrase, PhraseView};
use crate::zulip_status::{Emoji, EmojiView};

verus! {

#[verifier::external_type_specification]
#[verifier::external_body]
pub struct ExStdRng(StdRng);

/// The three states that an announcement can report.
#[derive(Debug, Clone, Copy, PartialEq, Eq, Structural)]
pub enum Phase {
    Start,
    Working,
    Pause,
}

impl Phase {
    /// The phase's name, as used in messages.
    pub fn name(&self) -> (r: &'static str)
        ensures
            r@ == phase_name(*self),
    {
        match self {
            Phase::Start => "Start",
            Phase::Working => "Working",
            Phase::Pause => "Pause",
        }
    }
}

pub open spec fn phase_name(p: Phase) -> Seq<char> {
    match p {
        Phase::Start => "Start"@,
        Phase::Working => "Working"@,
        Phase::Pause => "Pause"@,
    }
}

/// What a phrase resolves to: its text, and its own emoji if it has one,
/// else the phase's default.
pub open spec fn resolve(p: PhraseView, default_emoji: EmojiView) -> (Seq<char>, EmojiView) {
    match p {
        PhraseView::Basic(t) => (t, default_emoji),
        PhraseView::Emoji(t, e) => (t, EmojiView::Name(e)),
    }
}

/// Resolves a phrase against the phase's default emoji.
pub fn phrase_with_emoji_or_default(phrase: Phrase, default_emoji: Emoji) -> (r: (String, Emoji))
    ensures
        (r.0@, r.1@) == resolve(phrase@, default_emoji@),
{
    match phrase {
        Phrase::Basic(phrase_str) => (phrase_str, default_emoji),
        Phrase::Emoji((phrase_str, emoji_str)) => (phrase_str, Emoji::Name(emoji_str)),
    }
}

/// Relies on rand's `Rng::gen_range` over `0..n`, which returns a value of
/// that range and panics only when it is empty.
#[verifier::external_body]
fn draw_below(rng: &mut StdRng, n: usize) -> (r: usize)
    requires
        n > 0,
    ensures
        r < n,
{
    rng.gen_range(0..n)
}

/// Picks one phrase of a non-empty list, at random.
pub fn pick_one(rng: &mut StdRng, list: &[Phrase]) -> (r: Phrase)
    requires
        list@.len() > 0,
    ensures
        exists|i: int| 0 <= i < list@.len() && r@ == list@[i]@,
{
    let i: usize = draw_below(rng, list.len());
    list[i].clone()
}

/// The phrases that a phase picks from.
pub open spec fn phase_phrases(c: ConfigView, p: Phase) -> Seq<PhraseView> {
    match p {
        Phase::Start => c.start,
        Phase::Working => c.working,
        Phase::Pause => c.pause,
    }
}

/// The name of a phase's default emoji.
pub open spec fn phase_default(c: ConfigView, p: Phase) -> Seq<char> {
    match p {
        Phase::Start => c.emoji_start,
        Phase::Working => c.emoji_working,
        Phase::Pause => c.emoji_pause,
    }
}

/// One status update, ready to be sent.
#[derive(Debug)]
pub struct StatusUpdate {
    pub text: String,
    pub emoji: Emoji,
    /// Whether the user is to be shown as away.
    pub away: bool,
}

pub ghost struct StatusUpdateView {
    pub text: Seq<char>,
    pub emoji: EmojiView,
    pub away: bool,
}

impl View for StatusUpdate {
    type V = StatusUpdateView;

    open spec fn view(&self) -> StatusUpdateView {
        StatusUpdateView { text: self.text@, emoji: self.emoji@, away: self.away }
    }
}

/// The update that announces `phase` with the phrase at `index` of its
/// list: the phrase resolved against the phase's default emoji, and the
/// away flag set for the pause phase alone.
pub open spec fn update_for(c: ConfigView, phase: Phase, index: int) -> StatusUpdateView {
    let (text, emoji) = resolve(
        phase_phrases(c, phase)[index],
        EmojiView::Name(phase_default(c, phase)),
    );
    StatusUpdateView { text, emoji, away: phase is Pause }
}

/// The updates made for `phase` from the draws `draws`, one for each.
pub open spec fn updates_for(c: ConfigView, phase: Phase, draws: Seq<int>) -> Seq<StatusUpdateView> {
    draws.map_values(|i: int| update_for(c, phase, i))
}

/// The updates depend on the configuration, the phase and the draws alone:
/// two runs that draw the same indices make the same updates, and each
/// update carries the text of the phrase at its index.
pub proof fn lemma_updates_determined(
    c1: ConfigView,
    c2: ConfigView,
    phase: Phase,
    d1: Seq<int>,
    d2: Seq<int>,
)
    requires
        c1 == c2,
        d1 == d2,
        forall|k: int| 0 <= k < d1.len() ==> 0 <= #[trigger] d1[k] < phase_phrases(c1, phase).len(),
    ensures
        updates_for(c1, phase, d1) == updates_for(c2, phase, d2),
        forall|k: int|
            0 <= k < d1.len() ==> (#[trigger] updates_for(c1, phase, d1)[k]).text == phase_phrases(
                c1,
                phase,
            )[d1[k]].text(),
{
}

/// A bare phrase takes the phase's default emoji; a phrase with an emoji of
/// its own keeps that one, whatever the default.
pub proof fn lemma_default_emoji_fallback(c: ConfigView, phase: Phase, i: int)
    requires
        0 <= i < phase_phrases(c, phase).len(),
    ensures
        phase_phrases(c, phase)[i] is Basic ==> update_for(c, phase, i).emoji == EmojiView::Name(
            phase_default(c, phase),
        ),
        phase_phrases(c, phase)[i] matches PhraseView::Emoji(_, e) ==> update_for(
            c,
            phase,
            i,
        ).emoji == EmojiView::Name(e),
{
}

/// The away flag is set for the pause phase and for no other.
pub proof fn lemma_away_only_for_pause(c: ConfigView, phase: Phase, i: int)
    ensures
        update_for(c, phase, i).away <==> phase == Phase::Pause,
{
}

/// Why no update could be made for a phase.
#[derive(Debug, Clone, Copy, PartialEq, Eq, Structural)]
pub enum SelectionError {
    /// The phase's phrase list is empty.
    EmptyPhrases(Phase),
}

impl SelectionError {
    /// A message for the user.
    pub fn message(&self) -> (r: String)
        ensures
            r@ == "No phrases are configured for the "@ + phase_name(self->EmptyPhrases_0)
                + " phase"@,
    {
        let SelectionError::EmptyPhrases(p) = self;
        String::from_str("No phrases are configured for the ").concat(p.name()).concat(" phase")
    }
}

/// The message for an update that could not be sent.
pub fn sending_failure(phase: Phase, detail: &str) -> (r: String)
    ensures
        r@ == "Problem sending "@ + phase_name(phase) + " status: "@ + detail@,
{
    String::from_str("Problem sending ").concat(phase.name()).concat(" status: ").concat(detail)
}

fn phrases_of(config: &Config, phase: Phase) -> (r: &Vec<Phrase>)
    ensures
        phrases_view(r@) == phase_phrases(config@, phase),
{
    match phase {
        Phase::Start => &config.phrases.start,
        Phase::Working => &config.phrases.working,
        Phase::Pause => &config.phrases.pause,
    }
}

fn default_of(config: &Config, phase: Phase) -> (r: Emoji)
    ensures
        r@ == EmojiView::Name(phase_default(config@, phase)),
{
    match phase {
        Phase::Start => Emoji::Name(config.emoji.start.clone()),
        Phase::Working => Emoji::Name(config.emoji.working.clone()),
        Phase::Pause => Emoji::Name(config.emoji.pause.clone()),
    }
}

fn update_from(phase: Phase, phrase: Phrase, default_emoji: Emoji) -> (r: StatusUpdate)
    ensures
        (r.text@, r.emoji@) == resolve(phrase@, default_emoji@),
        r.away == phase is Pause,
{
    let (text, emoji) = phrase_with_emoji_or_default(phrase, default_emoji);
    let away = match phase {
        Phase::Pause => true,
        _ => false,
    };
    StatusUpdate { text, emoji, away }
}

/// The engine: a configuration and the random source that picks phrases.
pub struct Zulipsis {
    rng: StdRng,
    config: Config,
}

impl View for Zulipsis {
    type V = ConfigView;

    closed spec fn view(&self) -> ConfigView {
        self.config@
    }
}

impl Zulipsis {
    pub fn new(config: Config, rng: StdRng) -> (r: Self)
        ensures
            r@ == config@,
    {
        Zulipsis { rng, config }
    }

    /// The update for `phase` with the phrase at `index` of its list.
    pub fn status_for(&self, phase: Phase, index: usize) -> (r: StatusUpdate)
        requires
            index < phase_phrases(self@, phase).len(),
        ensures
            r@ == update_for(self@, phase, index as int),
    {
        let list = phrases_of(&self.config, phase);
        let phrase = list[index].clone();
        update_from(phase, phrase, default_of(&self.config, phase))
    }

    /// Picks a phrase for `phase` at random and resolves it. Fails when the
    /// phase has no phrases.
    pub fn next_status(&mut self, phase: Phase) -> (r: Result<StatusUpdate, SelectionError>)
        ensures
            final(self)@ == old(self)@,
            r is Err <==> phase_phrases(old(self)@, phase).len() == 0,
            r matches Err(e) ==> e == SelectionError::EmptyPhrases(phase),
            r matches Ok(u) ==> exists|i: int|
                0 <= i < phase_phrases(old(self)@, phase).len() && u@ == #[trigger] update_for(
                    old(self)@,
                    phase,
                    i,
                ),
    {
        let list = phrases_of(&self.config, phase);
        if list.len() == 0 {
            return Err(SelectionError::EmptyPhrases(phase));
        }
        let phrase = pick_one(&mut self.rng, list.as_slice());
        let u = update_from(phase, phrase, default_of(&self.config, phase));
        proof {
            let i = choose|i: int| 0 <= i < list@.len() && phrase@ == list@[i]@;
            assert(phrases_view(list@)[i] == list@[i]@);
            assert(u@ == update_for(old(self)@, phase, i));
        }
        Ok(u)
    }
}

} // verus!
