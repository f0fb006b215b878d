use vstd::prelude::*;

verus! {

/// How an announcement names its emoji.
#[derive(Debug)]
pub enum Emoji {
    /// The emoji's name, resolved by the server.
    Name(String),
    /// The emoji's code within one of the server's namespaces.
    Code(ReactionType),
}

/// The namespace of an emoji code, with the code itself.
#[derive(Debug)]
pub enum ReactionType {
    /// Hex encoding of a unicode emoji, e.g. `1f419`.
    Unicode(String),
    /// The numeric id of a custom emoji of the realm.
    Realm(u32),
    /// The name of an emoji that the server ships with.
    Extra(String),
}

pub ghost enum ReactionTypeView {
    Unicode(Seq<char>),
    Realm(u32),
    Extra(Seq<char>),
}

pub ghost enum EmojiView {
    Name(Seq<char>),
    Code(ReactionTypeView),
}

impl View for ReactionType {
    type V = ReactionTypeView;

    open spec fn view(&self) -> ReactionTypeView {
        match self {
            ReactionType::Unicode(v) => ReactionTypeView::Unicode(v@),
            ReactionType::Realm(v) => ReactionTypeView::Realm(*v),
            ReactionType::Extra(v) => ReactionTypeView::Extra(v@),
        }
    }
}

impl View for Emoji {
    type V = EmojiView;

    open spec fn view(&self) -> EmojiView {
        match self {
            Emoji::Name(n) => EmojiView::Name(n@),
            Emoji::Code(c) => EmojiView::Code(c@),
        }
    }
}

/// The decimal digit `d` as a one-character string.
pub open spec fn digit_text(d: nat) -> Seq<char> {
    if d == 0 {
        "0"@
    } else if d == 1 {
        "1"@
    } else if d == 2 {
        "2"@
    } else if d == 3 {
        "3"@
    } else if d == 4 {
        "4"@
    } else if d == 5 {
        "5"@
    } else if d == 6 {
        "6"@
    } else if d == 7 {
        "7"@
    } else if d == 8 {
        "8"@
    } else {
        "9"@
    }
}

/// The decimal notation of `n`, without leading zeros.
pub open spec fn decimal(n: nat) -> Seq<char>
    decreases n,
{
    if n < 10 {
        digit_text(n)
    } else {
        decimal(n / 10) + digit_text(n % 10)
    }
}

fn digit_str(d: u32) -> (r: &'static str)
    requires
        d < 10,
    ensures
        r@ == digit_text(d as nat),
{
    if d == 0 {
        "0"
    } else if d == 1 {
        "1"
    } else if d == 2 {
        "2"
    } else if d == 3 {
        "3"
    } else if d == 4 {
        "4"
    } else if d == 5 {
        "5"
    } else if d == 6 {
        "6"
    } else if d == 7 {
        "7"
    } else if d == 8 {
        "8"
    } else {
        "9"
    }
}

/// Writes `n` in decimal.
pub fn decimal_string(n: u32) -> (r: String)
    ensures
        r@ == decimal(n as nat),
    decreases n,
{
    if n < 10 {
        String::from_str(digit_str(n))
    } else {
        let mut s = decimal_string(n / 10);
        s.append(digit_str(n % 10));
        s
    }
}

/// The code that is sent for a reaction type.
pub open spec fn reaction_code(r: ReactionTypeView) -> Seq<char> {
    match r {
        ReactionTypeView::Unicode(v) => v,
        ReactionTypeView::Realm(v) => decimal(v as nat),
        ReactionTypeView::Extra(v) => v,
    }
}

impl ReactionType {
    /// The code of the emoji, as the server expects it.
    pub fn to_string(&self) -> (r: String)
        ensures
            r@ == reaction_code(self@),
    {
        match self {
            ReactionType::Unicode(v) => v.clone(),
            ReactionType::Realm(v) => decimal_string(*v),
            ReactionType::Extra(v) => v.clone(),
        }
    }
}

/// The path of the status endpoint, below the site's address.
pub open spec fn status_path() -> Seq<char> {
    "/api/v1/users/me/status"@
}

/// The address that status updates are posted to.
pub fn status_url(base_url: &str) -> (r: String)
    ensures
        r@ == base_url@ + status_path(),
{
    String::from_str(base_url).concat("/api/v1/users/me/status")
}

/// The text sent for the away flag.
pub open spec fn away_text(away: bool) -> Seq<char> {
    if away {
        "true"@
    } else {
        "false"@
    }
}

/// The form field that names the emoji.
pub open spec fn emoji_field(e: EmojiView) -> (Seq<char>, Seq<char>) {
    match e {
        EmojiView::Name(n) => ("emoji_name"@, n),
        EmojiView::Code(c) => ("emoji_code"@, reaction_code(c)),
    }
}

/// The fields of a status update: the text, the away flag, and the emoji
/// when there is one.
pub open spec fn status_fields(text: Seq<char>, emoji: Option<EmojiView>, away: bool) -> Seq<
    (Seq<char>, Seq<char>),
> {
    let base = seq![("status_text"@, text), ("away"@, away_text(away))];
    match emoji {
        Some(e) => base.push(emoji_field(e)),
        None => base,
    }
}

/// The views of a list of form fields.
pub open spec fn fields_view(v: Seq<(String, String)>) -> Seq<(Seq<char>, Seq<char>)> {
    v.map_values(|f: (String, String)| (f.0@, f.1@))
}

/// The optional view of an optional emoji.
pub open spec fn opt_emoji_view(e: Option<Emoji>) -> Option<EmojiView> {
    match e {
        Some(e) => Some(e@),
        None => None,
    }
}

fn field(name: &str, value: String) -> (r: (String, String))
    ensures
        r.0@ == name@,
        r.1@ == value@,
{
    (String::from_str(name), value)
}

/// The form fields that set a status.
pub fn status_form(text: &str, emoji: Option<Emoji>, away: bool) -> (r: Vec<(String, String)>)
    ensures
        fields_view(r@) == status_fields(text@, opt_emoji_view(emoji), away),
{
    let mut r: Vec<(String, String)> = Vec::new();
    r.push(field("status_text", String::from_str(text)));
    let away_value = if away {
        String::from_str("true")
    } else {
        String::from_str("false")
    };
    r.push(field("away", away_value));
    match emoji {
        Some(Emoji::Name(name)) => r.push(field("emoji_name", name)),
        Some(Emoji::Code(code)) => r.push(field("emoji_code", code.to_string())),
        None => {},
    }
    assert(fields_view(r@) =~= status_fields(text@, opt_emoji_view(emoji), away));
    r
}

/// The form fields that clear the status.
pub fn clear_form() -> (r: Vec<(String, String)>)
    ensures
        fields_view(r@) == seq![("status_text"@, Seq::<char>::empty())],
{
    let mut r: Vec<(String, String)> = Vec::new();
    r.push(field("status_text", String::new()));
    assert(fields_view(r@) =~= seq![("status_text"@, Seq::<char>::empty())]);
    r
}

} // verus!
