use vstd::prelude::*;

verus! {

/// The whole configuration: timing, the phrases of each phase, and the
/// default emoji of each phase.
pub struct Config {
    pub general: General,
    pub phrases: Phrases,
    pub emoji: Emoji,
}

/// Settings that are not tied to one phase.
pub struct General {
    /// How long, in seconds, to wait between two working announcements.
    pub cycle_duration_seconds: u64,
}

/// The phrases that each phase picks from.
pub struct Phrases {
    pub start: Vec<Phrase>,
    pub working: Vec<Phrase>,
    pub pause: Vec<Phrase>,
}

/// One configured phrase: either bare, so that the phase's default emoji is
/// used, or paired with an emoji name of its own.
#[derive(Debug)]
pub enum Phrase {
    Basic(String),
    Emoji((String, String)),
}

/// The default emoji name of each phase.
pub struct Emoji {
    pub start: String,
    pub working: String,
    pub pause: String,
}

/// What a phrase holds, as character sequences.
pub ghost enum PhraseView {
    Basic(Seq<char>),
    Emoji(Seq<char>, Seq<char>),
}

impl PhraseView {
    /// The text that is announced.
    pub open spec fn text(self) -> Seq<char> {
        match self {
            PhraseView::Basic(t) => t,
            PhraseView::Emoji(t, _) => t,
        }
    }
}

impl View for Phrase {
    type V = PhraseView;

    open spec fn view(&self) -> PhraseView {
        match self {
            Phrase::Basic(t) => PhraseView::Basic(t@),
            Phrase::Emoji((t, e)) => PhraseView::Emoji(t@, e@),
        }
    }
}

impl Clone for Phrase {
    fn clone(&self) -> (r: Self)
        ensures
            r@ == self@,
    {
        match self {
            Phrase::Basic(t) => Phrase::Basic(t.clone()),
            Phrase::Emoji((t, e)) => Phrase::Emoji((t.clone(), e.clone())),
        }
    }
}

impl PartialEq for Phrase {
    fn eq(&self, o: &Phrase) -> (r: bool) {
        match self {
            Phrase::Basic(a) => match o {
                Phrase::Basic(b) => a.eq(b),
                _ => false,
            },
            Phrase::Emoji((a, x)) => match o {
                Phrase::Emoji((b, y)) => a.eq(b) && x.eq(y),
                _ => false,
            },
        }
    }
}

impl vstd::std_specs::cmp::PartialEqSpecImpl for Phrase {
    open spec fn obeys_eq_spec() -> bool {
        true
    }

    open spec fn eq_spec(&self, o: &Phrase) -> bool {
        self@ == o@
    }
}

/// The views of a list of phrases.
pub open spec fn phrases_view(s: Seq<Phrase>) -> Seq<PhraseView> {
    s.map_values(|p: Phrase| p@)
}

/// What a configuration holds, as plain values.
pub ghost struct ConfigView {
    pub cycle_duration_seconds: u64,
    pub start: Seq<PhraseView>,
    pub working: Seq<PhraseView>,
    pub pause: Seq<PhraseView>,
    pub emoji_start: Seq<char>,
    pub emoji_working: Seq<char>,
    pub emoji_pause: Seq<char>,
}

impl View for Config {
    type V = ConfigView;

    open spec fn view(&self) -> ConfigView {
        ConfigView {
            cycle_duration_seconds: self.general.cycle_duration_seconds,
            start: phrases_view(self.phrases.start@),
            working: phrases_view(self.phrases.working@),
            pause: phrases_view(self.phrases.pause@),
            emoji_start: self.emoji.start@,
            emoji_working: self.emoji.working@,
            emoji_pause: self.emoji.pause@,
        }
    }
}

/// The configuration used when none is given: a five minute cycle and a few
/// phrases for each phase.
pub open spec fn default_config() -> ConfigView {
    ConfigView {
        cycle_duration_seconds: 300,
        start: seq![
            PhraseView::Basic("getting started"@),
            PhraseView::Emoji("waking-up"@, "sunrise"@),
            PhraseView::Emoji("catching-up on zulip"@, "zulip"@),
        ],
        working: seq![
            PhraseView::Basic("working"@),
            PhraseView::Emoji("thinking"@, "brain"@),
            PhraseView::Basic("reading the docs"@),
        ],
        pause: seq![
            PhraseView::Basic("taking a break"@),
            PhraseView::Emoji("afk"@, "keyboard"@),
        ],
        emoji_start: "start"@,
        emoji_working: "tools"@,
        emoji_pause: "zzz"@,
    }
}

fn basic(t: &str) -> (r: Phrase)
    ensures
        r@ == PhraseView::Basic(t@),
{
    Phrase::Basic(String::from_str(t))
}

fn with_emoji(t: &str, e: &str) -> (r: Phrase)
    ensures
        r@ == PhraseView::Emoji(t@, e@),
{
    Phrase::Emoji((String::from_str(t), String::from_str(e)))
}

impl Default for Config {
    fn default() -> (r: Self)
        ensures
            r@ == default_config(),
    {
        let start = vec![
            basic("getting started"),
            with_emoji("waking-up", "sunrise"),
            with_emoji("catching-up on zulip", "zulip"),
        ];
        let working = vec![
            basic("working"),
            with_emoji("thinking", "brain"),
            basic("reading the docs"),
        ];
        let pause = vec![basic("taking a break"), with_emoji("afk", "keyboard")];
        let r = Config {
            general: General { cycle_duration_seconds: 300 },
            phrases: Phrases { start, working, pause },
            emoji: Emoji {
                start: String::from_str("start"),
                working: String::from_str("tools"),
                pause: String::from_str("zzz"),
            },
        };
        assert(phrases_view(r.phrases.start@) =~= default_config().start);
        assert(phrases_view(r.phrases.working@) =~= default_config().working);
        assert(phrases_view(r.phrases.pause@) =~= default_config().pause);
        r
    }
}

} // verus!
