//! The rich presence activity: a value that is built up field by field and
//! sent as the payload of a `SET_ACTIVITY` command.
//!
//! Every field is optional. A field that was never set does not appear in
//! the JSON value at all: Discord tells a missing field from a `null`.

use vstd::prelude::*;
use vstd::string::StrSliceExecFns;
use crate::json::Json;
use crate::json::JsonView;
use crate::json::first_named;
use crate::json::items_view;
use crate::json::lemma_first_named_alone;
use crate::json::lemma_first_named_concat;
use crate::json::member;
use crate::json::members_view;
use crate::json::number_member;
use crate::json::push_member;
use crate::json::text_member;

verus! {

/// The most buttons that Discord shows on an activity.
pub const MAX_BUTTONS: usize = 2;

/// The most characters that the label of a button may have.
pub const MAX_LABEL_CHARS: usize = 32;

/// The most characters that the URL of a button may have.
pub const MAX_URL_CHARS: usize = 512;

/// A rich presence activity.
///
/// All methods return `Self`, and can be chained.
#[derive(Clone, Debug)]
pub struct Activity {
    state: Option<String>,
    details: Option<String>,
    timestamps: Option<Timestamps>,
    party: Option<Party>,
    assets: Option<Assets>,
    secrets: Option<Secrets>,
    buttons: Option<Vec<Button>>,
}

/// The start and the end of an activity, in Unix time.
#[derive(Clone, Debug)]
pub struct Timestamps {
    start: Option<i64>,
    end: Option<i64>,
}

/// The party that the player is in.
#[derive(Clone, Debug)]
pub struct Party {
    id: Option<String>,
    size: Option<[i32; 2]>,
}

/// The images of an activity and the texts shown when hovering over them.
#[derive(Clone, Debug)]
pub struct Assets {
    large_image: Option<String>,
    large_text: Option<String>,
    small_image: Option<String>,
    small_text: Option<String>,
}

/// The secrets by which others join or watch the game.
#[derive(Clone, Debug)]
pub struct Secrets {
    join: Option<String>,
    spectate: Option<String>,
    match_: Option<String>,
}

/// A button under an activity.
#[derive(Clone, Debug)]
pub struct Button {
    label: String,
    url: String,
}

/// What an [`Activity`] holds.
pub struct ActivityView {
    pub state: Option<Seq<char>>,
    pub details: Option<Seq<char>>,
    pub timestamps: Option<TimestampsView>,
    pub party: Option<PartyView>,
    pub assets: Option<AssetsView>,
    pub secrets: Option<SecretsView>,
    pub buttons: Option<Seq<ButtonView>>,
}

/// What a [`Timestamps`] holds.
pub struct TimestampsView {
    pub start: Option<i64>,
    pub end: Option<i64>,
}

/// What a [`Party`] holds; the size is the current and the maximum number
/// of players.
pub struct PartyView {
    pub id: Option<Seq<char>>,
    pub size: Option<(i32, i32)>,
}

/// What an [`Assets`] holds.
pub struct AssetsView {
    pub large_image: Option<Seq<char>>,
    pub large_text: Option<Seq<char>>,
    pub small_image: Option<Seq<char>>,
    pub small_text: Option<Seq<char>>,
}

/// What a [`Secrets`] holds.
pub struct SecretsView {
    pub join: Option<Seq<char>>,
    pub spectate: Option<Seq<char>>,
    pub match_: Option<Seq<char>>,
}

/// What a [`Button`] holds.
pub struct ButtonView {
    pub label: Seq<char>,
    pub url: Seq<char>,
}

/// The content of an optional string.
pub open spec fn text_view(text: Option<String>) -> Option<Seq<char>> {
    match text {
        Some(t) => Some(t@),
        None => None,
    }
}

/// The contents of a list of buttons.
pub open spec fn buttons_view(buttons: Seq<Button>) -> Seq<ButtonView> {
    Seq::new(buttons.len(), |i: int| buttons[i]@)
}

impl View for Timestamps {
    type V = TimestampsView;

    closed spec fn view(&self) -> TimestampsView {
        TimestampsView { start: self.start, end: self.end }
    }
}

impl View for Party {
    type V = PartyView;

    closed spec fn view(&self) -> PartyView {
        PartyView {
            id: text_view(self.id),
            size: match self.size {
                Some(size) => Some((size@[0], size@[1])),
                None => None,
            },
        }
    }
}

impl View for Assets {
    type V = AssetsView;

    closed spec fn view(&self) -> AssetsView {
        AssetsView {
            large_image: text_view(self.large_image),
            large_text: text_view(self.large_text),
            small_image: text_view(self.small_image),
            small_text: text_view(self.small_text),
        }
    }
}

impl View for Secrets {
    type V = SecretsView;

    closed spec fn view(&self) -> SecretsView {
        SecretsView {
            join: text_view(self.join),
            spectate: text_view(self.spectate),
            match_: text_view(self.match_),
        }
    }
}

impl View for Button {
    type V = ButtonView;

    closed spec fn view(&self) -> ButtonView {
        ButtonView { label: self.label@, url: self.url@ }
    }
}

impl View for Activity {
    type V = ActivityView;

    closed spec fn view(&self) -> ActivityView {
        ActivityView {
            state: text_view(self.state),
            details: text_view(self.details),
            timestamps: match self.timestamps {
                Some(t) => Some(t@),
                None => None,
            },
            party: match self.party {
                Some(p) => Some(p@),
                None => None,
            },
            assets: match self.assets {
                Some(a) => Some(a@),
                None => None,
            },
            secrets: match self.secrets {
                Some(s) => Some(s@),
                None => None,
            },
            buttons: match self.buttons {
                Some(b) => Some(buttons_view(b@)),
                None => None,
            },
        }
    }
}

impl TimestampsView {
    /// No timestamp is set.
    pub open spec fn empty() -> TimestampsView {
        TimestampsView { start: None, end: None }
    }

    /// The JSON object for the timestamps.
    pub open spec fn json(self) -> JsonView {
        JsonView::Object(number_member("start"@, self.start) + number_member("end"@, self.end))
    }
}

impl PartyView {
    /// Nothing is set.
    pub open spec fn empty() -> PartyView {
        PartyView { id: None, size: None }
    }

    /// The JSON array for a party size.
    pub open spec fn size_json(size: (i32, i32)) -> JsonView {
        JsonView::Array(seq![JsonView::Number(size.0 as int), JsonView::Number(size.1 as int)])
    }

    /// The JSON object for the party.
    pub open spec fn json(self) -> JsonView {
        JsonView::Object(
            text_member("id"@, self.id) + member(
                "size"@,
                match self.size {
                    Some(size) => Some(PartyView::size_json(size)),
                    None => None,
                },
            ),
        )
    }
}

impl AssetsView {
    /// Nothing is set.
    pub open spec fn empty() -> AssetsView {
        AssetsView { large_image: None, large_text: None, small_image: None, small_text: None }
    }

    /// The JSON object for the assets.
    pub open spec fn json(self) -> JsonView {
        JsonView::Object(
            text_member("large_image"@, self.large_image) + text_member(
                "large_text"@,
                self.large_text,
            ) + text_member("small_image"@, self.small_image) + text_member(
                "small_text"@,
                self.small_text,
            ),
        )
    }
}

impl SecretsView {
    /// Nothing is set.
    pub open spec fn empty() -> SecretsView {
        SecretsView { join: None, spectate: None, match_: None }
    }

    /// The JSON object for the secrets.
    pub open spec fn json(self) -> JsonView {
        JsonView::Object(
            text_member("join"@, self.join) + text_member("spectate"@, self.spectate)
                + text_member("match"@, self.match_),
        )
    }
}

impl ButtonView {
    /// The JSON object for the button.
    pub open spec fn json(self) -> JsonView {
        JsonView::Object(
            seq![("label"@, JsonView::String(self.label)), ("url"@, JsonView::String(self.url))],
        )
    }

    /// Whether Discord takes the button: a label of 1 to 32 characters and
    /// a URL of 1 to 512 characters.
    pub open spec fn valid(self) -> bool {
        &&& 1 <= self.label.len() <= MAX_LABEL_CHARS
        &&& 1 <= self.url.len() <= MAX_URL_CHARS
    }
}

/// The JSON array for a list of buttons.
pub open spec fn buttons_json(buttons: Seq<ButtonView>) -> JsonView {
    JsonView::Array(Seq::new(buttons.len(), |i: int| buttons[i].json()))
}

impl ActivityView {
    /// The activity of which nothing is set.
    pub open spec fn empty() -> ActivityView {
        ActivityView {
            state: None,
            details: None,
            timestamps: None,
            party: None,
            assets: None,
            secrets: None,
            buttons: None,
        }
    }

    /// The JSON object for the activity: one member for each field that is
    /// set, in the order of the fields, and none for a field that is not.
    /// The order is that of the value: the text that is written for it has
    /// the members sorted by name.
    pub open spec fn json(self) -> JsonView {
        JsonView::Object(
            text_member("state"@, self.state) + text_member("details"@, self.details) + member(
                "timestamps"@,
                match self.timestamps {
                    Some(t) => Some(t.json()),
                    None => None,
                },
            ) + member(
                "party"@,
                match self.party {
                    Some(p) => Some(p.json()),
                    None => None,
                },
            ) + member(
                "assets"@,
                match self.assets {
                    Some(a) => Some(a.json()),
                    None => None,
                },
            ) + member(
                "secrets"@,
                match self.secrets {
                    Some(s) => Some(s.json()),
                    None => None,
                },
            ) + member(
                "buttons"@,
                match self.buttons {
                    Some(b) => Some(buttons_json(b)),
                    None => None,
                },
            ),
        )
    }

    /// Whether Discord takes the activity: where buttons are set there are
    /// one or two of them, and each is valid.
    pub open spec fn valid(self) -> bool {
        match self.buttons {
            Some(buttons) => {
                &&& 1 <= buttons.len() <= MAX_BUTTONS
                &&& forall|i: int| 0 <= i < buttons.len() ==> (#[trigger] buttons[i]).valid()
            },
            None => true,
        }
    }
}

fn text_json(text: &Option<String>) -> (json: Option<Json>)
    ensures
        match text_view(*text) {
            Some(t) => json is Some && json->Some_0@ == JsonView::String(t),
            None => json is None,
        },
{
    match text {
        Some(t) => Some(Json::text(t.as_str())),
        None => None,
    }
}

fn number_json(number: Option<i64>) -> (json: Option<Json>)
    ensures
        match number {
            Some(n) => json is Some && json->Some_0@ == JsonView::Number(n as int),
            None => json is None,
        },
{
    match number {
        Some(n) => Some(Json::number(n)),
        None => None,
    }
}

impl Activity {
    /// Creates an activity of which nothing is set.
    pub fn new() -> (activity: Self)
        ensures
            activity@ == ActivityView::empty(),
    {
        Activity {
            state: None,
            details: None,
            assets: None,
            buttons: None,
            party: None,
            secrets: None,
            timestamps: None,
        }
    }

    /// Sets the state of the activity.
    pub fn state(self, state: &str) -> (activity: Self)
        ensures
            activity@ == (ActivityView { state: Some(state@), ..self@ }),
    {
        let mut activity = self;
        activity.state = Some(state.to_owned());
        activity
    }

    /// Sets the details of the activity.
    pub fn details(self, details: &str) -> (activity: Self)
        ensures
            activity@ == (ActivityView { details: Some(details@), ..self@ }),
    {
        let mut activity = self;
        activity.details = Some(details.to_owned());
        activity
    }

    /// Adds timestamps to the activity.
    pub fn timestamps(self, timestamps: Timestamps) -> (activity: Self)
        ensures
            activity@ == (ActivityView { timestamps: Some(timestamps@), ..self@ }),
    {
        let mut activity = self;
        activity.timestamps = Some(timestamps);
        activity
    }

    /// Adds a party to the activity.
    pub fn party(self, party: Party) -> (activity: Self)
        ensures
            activity@ == (ActivityView { party: Some(party@), ..self@ }),
    {
        let mut activity = self;
        activity.party = Some(party);
        activity
    }

    /// Adds assets to the activity.
    pub fn assets(self, assets: Assets) -> (activity: Self)
        ensures
            activity@ == (ActivityView { assets: Some(assets@), ..self@ }),
    {
        let mut activity = self;
        activity.assets = Some(assets);
        activity
    }

    /// Adds secrets to the activity.
    pub fn secrets(self, secrets: Secrets) -> (activity: Self)
        ensures
            activity@ == (ActivityView { secrets: Some(secrets@), ..self@ }),
    {
        let mut activity = self;
        activity.secrets = Some(secrets);
        activity
    }

    /// Adds buttons to the activity.
    ///
    /// Discord refuses an empty list, so an empty `buttons` leaves the
    /// activity as it is. The number of buttons is not looked at here:
    /// [`Activity::is_valid`] does that when the activity is sent.
    pub fn buttons(self, buttons: Vec<Button>) -> (activity: Self)
        ensures
            buttons@.len() == 0 ==> activity@ == self@,
            buttons@.len() > 0 ==> activity@ == (ActivityView {
                buttons: Some(buttons_view(buttons@)),
                ..self@
            }),
    {
        if buttons.len() == 0 {
            return self;
        }
        let mut activity = self;
        activity.buttons = Some(buttons);
        activity
    }

    /// Whether Discord takes the activity.
    pub fn is_valid(&self) -> (valid: bool)
        ensures
            valid == self@.valid(),
    {
        match &self.buttons {
            Some(buttons) => {
                if buttons.len() < 1 || buttons.len() > MAX_BUTTONS {
                    return false;
                }
                let mut i: usize = 0;
                while i < buttons.len()
                    invariant
                        i <= buttons.len(),
                        1 <= buttons.len() <= MAX_BUTTONS,
                        self.buttons == Some(*buttons),
                        forall|k: int| 0 <= k < i ==> (#[trigger] buttons_view(buttons@)[k]).valid(),
                    decreases buttons.len() - i,
                {
                    if !buttons[i].is_valid() {
                        assert(!buttons_view(buttons@)[i as int].valid());
                        return false;
                    }
                    i += 1;
                }
                true
            },
            None => true,
        }
    }

    /// The JSON value of the activity.
    pub fn to_json(&self) -> (json: Json)
        ensures
            json@ == self@.json(),
    {
        let mut members: Vec<(String, Json)> = Vec::new();
        assert(members_view(members@) =~= Seq::empty());
        push_member(&mut members, "state", text_json(&self.state));
        push_member(&mut members, "details", text_json(&self.details));
        push_member(
            &mut members,
            "timestamps",
            match &self.timestamps {
                Some(t) => Some(t.to_json()),
                None => None,
            },
        );
        push_member(
            &mut members,
            "party",
            match &self.party {
                Some(p) => Some(p.to_json()),
                None => None,
            },
        );
        push_member(
            &mut members,
            "assets",
            match &self.assets {
                Some(a) => Some(a.to_json()),
                None => None,
            },
        );
        push_member(
            &mut members,
            "secrets",
            match &self.secrets {
                Some(s) => Some(s.to_json()),
                None => None,
            },
        );
        push_member(
            &mut members,
            "buttons",
            match &self.buttons {
                Some(b) => Some(buttons_to_json(b)),
                None => None,
            },
        );
        assert(members_view(members@) =~= self@.json()->Object_0);
        Json::object(members)
    }
}

fn buttons_to_json(buttons: &Vec<Button>) -> (json: Json)
    ensures
        json@ == buttons_json(buttons_view(buttons@)),
{
    let mut items: Vec<Json> = Vec::new();
    let mut i: usize = 0;
    while i < buttons.len()
        invariant
            i <= buttons.len(),
            items@.len() == i,
            forall|k: int| 0 <= k < i ==> (#[trigger] items@[k])@ == buttons@[k]@.json(),
        decreases buttons.len() - i,
    {
        items.push(buttons[i].to_json());
        i += 1;
    }
    assert(items_view(items@) =~= buttons_json(buttons_view(buttons@))->Array_0);
    Json::array(items)
}

impl Default for Activity {
    fn default() -> (activity: Self)
        ensures
            activity@ == ActivityView::empty(),
    {
        Activity::new()
    }
}

impl Timestamps {
    /// Creates timestamps of which none is set.
    pub fn new() -> (timestamps: Self)
        ensures
            timestamps@ == TimestampsView::empty(),
    {
        Timestamps { start: None, end: None }
    }

    /// Sets the start time.
    pub fn start(self, start: i64) -> (timestamps: Self)
        ensures
            timestamps@ == (TimestampsView { start: Some(start), ..self@ }),
    {
        let mut timestamps = self;
        timestamps.start = Some(start);
        timestamps
    }

    /// Sets the end time.
    pub fn end(self, end: i64) -> (timestamps: Self)
        ensures
            timestamps@ == (TimestampsView { end: Some(end), ..self@ }),
    {
        let mut timestamps = self;
        timestamps.end = Some(end);
        timestamps
    }

    /// The JSON value of the timestamps.
    pub fn to_json(&self) -> (json: Json)
        ensures
            json@ == self@.json(),
    {
        let mut members: Vec<(String, Json)> = Vec::new();
        assert(members_view(members@) =~= Seq::empty());
        push_member(&mut members, "start", number_json(self.start));
        push_member(&mut members, "end", number_json(self.end));
        assert(members_view(members@) =~= self@.json()->Object_0);
        Json::object(members)
    }
}

impl Default for Timestamps {
    fn default() -> (timestamps: Self)
        ensures
            timestamps@ == TimestampsView::empty(),
    {
        Timestamps::new()
    }
}

impl Party {
    /// Creates a party of which nothing is set.
    pub fn new() -> (party: Self)
        ensures
            party@ == PartyView::empty(),
    {
        Party { id: None, size: None }
    }

    /// Sets the ID of the party.
    pub fn id(self, id: &str) -> (party: Self)
        ensures
            party@ == (PartyView { id: Some(id@), ..self@ }),
    {
        let mut party = self;
        party.id = Some(id.to_owned());
        party
    }

    /// Sets the size of the party: the current and the maximum number of
    /// players.
    pub fn size(self, size: [i32; 2]) -> (party: Self)
        ensures
            party@ == (PartyView { size: Some((size@[0], size@[1])), ..self@ }),
    {
        let mut party = self;
        party.size = Some(size);
        party
    }

    /// The JSON value of the party.
    pub fn to_json(&self) -> (json: Json)
        ensures
            json@ == self@.json(),
    {
        let mut members: Vec<(String, Json)> = Vec::new();
        assert(members_view(members@) =~= Seq::empty());
        push_member(&mut members, "id", text_json(&self.id));
        push_member(
            &mut members,
            "size",
            match &self.size {
                Some(size) => {
                    let mut items: Vec<Json> = Vec::new();
                    items.push(Json::number(size[0] as i64));
                    items.push(Json::number(size[1] as i64));
                    assert(items_view(items@) =~= PartyView::size_json(
                        (size@[0], size@[1]),
                    )->Array_0);
                    Some(Json::array(items))
                },
                None => None,
            },
        );
        assert(members_view(members@) =~= self@.json()->Object_0);
        Json::object(members)
    }
}

impl Default for Party {
    fn default() -> (party: Self)
        ensures
            party@ == PartyView::empty(),
    {
        Party::new()
    }
}

impl Assets {
    /// Creates assets of which nothing is set.
    pub fn new() -> (assets: Self)
        ensures
            assets@ == AssetsView::empty(),
    {
        Assets { large_image: None, large_text: None, small_image: None, small_text: None }
    }

    /// Sets the large image: the name of an art asset, or the URL of an
    /// image.
    pub fn large_image(self, large_image: &str) -> (assets: Self)
        ensures
            assets@ == (AssetsView { large_image: Some(large_image@), ..self@ }),
    {
        let mut assets = self;
        assets.large_image = Some(large_image.to_owned());
        assets
    }

    /// Sets the text shown when hovering over the large image.
    pub fn large_text(self, large_text: &str) -> (assets: Self)
        ensures
            assets@ == (AssetsView { large_text: Some(large_text@), ..self@ }),
    {
        let mut assets = self;
        assets.large_text = Some(large_text.to_owned());
        assets
    }

    /// Sets the small image: the name of an art asset, or the URL of an
    /// image.
    pub fn small_image(self, small_image: &str) -> (assets: Self)
        ensures
            assets@ == (AssetsView { small_image: Some(small_image@), ..self@ }),
    {
        let mut assets = self;
        assets.small_image = Some(small_image.to_owned());
        assets
    }

    /// Sets the text shown when hovering over the small image.
    pub fn small_text(self, small_text: &str) -> (assets: Self)
        ensures
            assets@ == (AssetsView { small_text: Some(small_text@), ..self@ }),
    {
        let mut assets = self;
        assets.small_text = Some(small_text.to_owned());
        assets
    }

    /// The JSON value of the assets.
    pub fn to_json(&self) -> (json: Json)
        ensures
            json@ == self@.json(),
    {
        let mut members: Vec<(String, Json)> = Vec::new();
        assert(members_view(members@) =~= Seq::empty());
        push_member(&mut members, "large_image", text_json(&self.large_image));
        push_member(&mut members, "large_text", text_json(&self.large_text));
        push_member(&mut members, "small_image", text_json(&self.small_image));
        push_member(&mut members, "small_text", text_json(&self.small_text));
        assert(members_view(members@) =~= self@.json()->Object_0);
        Json::object(members)
    }
}

impl Default for Assets {
    fn default() -> (assets: Self)
        ensures
            assets@ == AssetsView::empty(),
    {
        Assets::new()
    }
}

impl Secrets {
    /// Creates secrets of which none is set.
    pub fn new() -> (secrets: Self)
        ensures
            secrets@ == SecretsView::empty(),
    {
        Secrets { join: None, spectate: None, match_: None }
    }

    /// Sets the secret for joining the party.
    pub fn join(self, join: &str) -> (secrets: Self)
        ensures
            secrets@ == (SecretsView { join: Some(join@), ..self@ }),
    {
        let mut secrets = self;
        secrets.join = Some(join.to_owned());
        secrets
    }

    /// Sets the secret for spectating the game.
    pub fn spectate(self, spectate: &str) -> (secrets: Self)
        ensures
            secrets@ == (SecretsView { spectate: Some(spectate@), ..self@ }),
    {
        let mut secrets = self;
        secrets.spectate = Some(spectate.to_owned());
        secrets
    }

    /// Sets the secret of one instanced match.
    pub fn match_(self, match_: &str) -> (secrets: Self)
        ensures
            secrets@ == (SecretsView { match_: Some(match_@), ..self@ }),
    {
        let mut secrets = self;
        secrets.match_ = Some(match_.to_owned());
        secrets
    }

    /// The JSON value of the secrets.
    pub fn to_json(&self) -> (json: Json)
        ensures
            json@ == self@.json(),
    {
        let mut members: Vec<(String, Json)> = Vec::new();
        assert(members_view(members@) =~= Seq::empty());
        push_member(&mut members, "join", text_json(&self.join));
        push_member(&mut members, "spectate", text_json(&self.spectate));
        push_member(&mut members, "match", text_json(&self.match_));
        assert(members_view(members@) =~= self@.json()->Object_0);
        Json::object(members)
    }
}

impl Default for Secrets {
    fn default() -> (secrets: Self)
        ensures
            secrets@ == SecretsView::empty(),
    {
        Secrets::new()
    }
}

impl Button {
    /// Creates a button with a label and a URL.
    ///
    /// Discord wants a label of 1 to 32 characters and a URL of 1 to 512
    /// characters; [`Button::is_valid`] tells.
    pub fn new(label: &str, url: &str) -> (button: Self)
        ensures
            button@ == (ButtonView { label: label@, url: url@ }),
    {
        Button { label: label.to_owned(), url: url.to_owned() }
    }

    /// Whether Discord takes the button.
    pub fn is_valid(&self) -> (valid: bool)
        ensures
            valid == self@.valid(),
    {
        let label_chars: usize = self.label.as_str().unicode_len();
        let url_chars: usize = self.url.as_str().unicode_len();
        1 <= label_chars && label_chars <= MAX_LABEL_CHARS && 1 <= url_chars && url_chars
            <= MAX_URL_CHARS
    }

    /// The JSON value of the button.
    pub fn to_json(&self) -> (json: Json)
        ensures
            json@ == self@.json(),
    {
        let mut members: Vec<(String, Json)> = Vec::new();
        assert(members_view(members@) =~= Seq::empty());
        push_member(&mut members, "label", Some(Json::text(self.label.as_str())));
        push_member(&mut members, "url", Some(Json::text(self.url.as_str())));
        assert(members_view(members@) =~= self@.json()->Object_0);
        Json::object(members)
    }
}

/// An activity of which nothing is set is the empty JSON object, and so
/// is each of its parts of which nothing is set.
pub proof fn lemma_empty_is_empty_object()
    ensures
        ActivityView::empty().json() == JsonView::Object(Seq::empty()),
        TimestampsView::empty().json() == JsonView::Object(Seq::empty()),
        PartyView::empty().json() == JsonView::Object(Seq::empty()),
        AssetsView::empty().json() == JsonView::Object(Seq::empty()),
        SecretsView::empty().json() == JsonView::Object(Seq::empty()),
{
    assert(ActivityView::empty().json()->Object_0 =~= Seq::empty());
    assert(TimestampsView::empty().json()->Object_0 =~= Seq::empty());
    assert(PartyView::empty().json()->Object_0 =~= Seq::empty());
    assert(AssetsView::empty().json()->Object_0 =~= Seq::empty());
    assert(SecretsView::empty().json()->Object_0 =~= Seq::empty());
}

/// The value of an optional field as a JSON member has it.
pub open spec fn json_of<T>(field: Option<T>, json: spec_fn(T) -> JsonView) -> Option<JsonView> {
    match field {
        Some(value) => Some(json(value)),
        None => None,
    }
}

proof fn lemma_first_named_of_seven(
    names: Seq<Seq<char>>,
    values: Seq<Option<JsonView>>,
    wanted: int,
)
    requires
        names.len() == 7,
        values.len() == 7,
        0 <= wanted < 7,
        forall|i: int, j: int| 0 <= i < j < 7 ==> names[i] != names[j],
    ensures
        first_named(
            member(names[0], values[0]) + member(names[1], values[1]) + member(names[2], values[2])
                + member(names[3], values[3]) + member(names[4], values[4]) + member(
                names[5],
                values[5],
            ) + member(names[6], values[6]),
            names[wanted],
        ) == values[wanted],
{
    let w = names[wanted];
    let m0 = member(names[0], values[0]);
    let m1 = m0 + member(names[1], values[1]);
    let m2 = m1 + member(names[2], values[2]);
    let m3 = m2 + member(names[3], values[3]);
    let m4 = m3 + member(names[4], values[4]);
    let m5 = m4 + member(names[5], values[5]);
    lemma_first_named_alone(names[0], values[0], w);
    lemma_first_named_alone(names[1], values[1], w);
    lemma_first_named_alone(names[2], values[2], w);
    lemma_first_named_alone(names[3], values[3], w);
    lemma_first_named_alone(names[4], values[4], w);
    lemma_first_named_alone(names[5], values[5], w);
    lemma_first_named_alone(names[6], values[6], w);
    lemma_first_named_concat(m0, member(names[1], values[1]), w);
    lemma_first_named_concat(m1, member(names[2], values[2]), w);
    lemma_first_named_concat(m2, member(names[3], values[3]), w);
    lemma_first_named_concat(m3, member(names[4], values[4]), w);
    lemma_first_named_concat(m4, member(names[5], values[5]), w);
    lemma_first_named_concat(m5, member(names[6], values[6]), w);
}

/// Each field of an activity is found in its JSON object under its name if
/// it is set, and not at all if it is not.
pub proof fn lemma_fields_are_members(activity: ActivityView)
    ensures
        activity.json().field("state"@) == json_of(
            activity.state,
            |t: Seq<char>| JsonView::String(t),
        ),
        activity.json().field("details"@) == json_of(
            activity.details,
            |t: Seq<char>| JsonView::String(t),
        ),
        activity.json().field("timestamps"@) == json_of(
            activity.timestamps,
            |t: TimestampsView| t.json(),
        ),
        activity.json().field("party"@) == json_of(activity.party, |p: PartyView| p.json()),
        activity.json().field("assets"@) == json_of(activity.assets, |a: AssetsView| a.json()),
        activity.json().field("secrets"@) == json_of(activity.secrets, |s: SecretsView| s.json()),
        activity.json().field("buttons"@) == json_of(
            activity.buttons,
            |b: Seq<ButtonView>| buttons_json(b),
        ),
{
    reveal_strlit("state");
    reveal_strlit("details");
    reveal_strlit("timestamps");
    reveal_strlit("party");
    reveal_strlit("assets");
    reveal_strlit("secrets");
    reveal_strlit("buttons");
    let names = seq![
        "state"@,
        "details"@,
        "timestamps"@,
        "party"@,
        "assets"@,
        "secrets"@,
        "buttons"@,
    ];
    let values = seq![
        json_of(activity.state, |t: Seq<char>| JsonView::String(t)),
        json_of(activity.details, |t: Seq<char>| JsonView::String(t)),
        json_of(activity.timestamps, |t: TimestampsView| t.json()),
        json_of(activity.party, |p: PartyView| p.json()),
        json_of(activity.assets, |a: AssetsView| a.json()),
        json_of(activity.secrets, |s: SecretsView| s.json()),
        json_of(activity.buttons, |b: Seq<ButtonView>| buttons_json(b)),
    ];
    assert forall|i: int, j: int| 0 <= i < j < 7 implies names[i] != names[j] by {
        assert(names[i].len() != names[j].len() || names[i][0] != names[j][0]);
    }
    assert(activity.json()->Object_0 =~= member(names[0], values[0]) + member(names[1], values[1])
        + member(names[2], values[2]) + member(names[3], values[3]) + member(names[4], values[4])
        + member(names[5], values[5]) + member(names[6], values[6]));
    lemma_first_named_of_seven(names, values, 0);
    lemma_first_named_of_seven(names, values, 1);
    lemma_first_named_of_seven(names, values, 2);
    lemma_first_named_of_seven(names, values, 3);
    lemma_first_named_of_seven(names, values, 4);
    lemma_first_named_of_seven(names, values, 5);
    lemma_first_named_of_seven(names, values, 6);
}

/// Buttons that are set, one or two of them, are the member `buttons` of
/// the JSON object: an array with one item for each button, in their order.
pub proof fn lemma_buttons_are_an_array(activity: ActivityView)
    requires
        activity.buttons is Some,
        1 <= activity.buttons->Some_0.len() <= MAX_BUTTONS,
    ensures
        activity.json().field("buttons"@) is Some,
        activity.json().field("buttons"@)->Some_0 is Array,
        activity.json().field("buttons"@)->Some_0->Array_0.len() == activity.buttons->Some_0.len(),
        forall|i: int|
            0 <= i < activity.buttons->Some_0.len() ==> activity.json().field(
                "buttons"@,
            )->Some_0->Array_0[i] == (#[trigger] activity.buttons->Some_0[i]).json(),
{
    lemma_fields_are_members(activity);
}

} // verus!
