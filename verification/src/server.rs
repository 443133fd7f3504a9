//! The setup portal: its two pages, the submitted form, and the slot through
//! which the submitted credentials reach the controller.

use crate::http::ReadError;
use crate::wifi::{
    byte_len, AccessPointInfo, Credentials, CredentialsError, CredentialsView, NAME_LIMIT,
    SECRET_LIMIT,
};
use vstd::prelude::*;

verus! {

/// The pairs of name and value that `serde_urlencoded::from_bytes` reads out
/// of a form body, in the body's order; `None` where it gives an error.
pub uninterp spec fn form_pairs(body: Seq<u8>) -> Option<Seq<(Seq<char>, Seq<char>)>>;

/// Calls `serde_urlencoded::from_bytes` for the pairs of a form body, and
/// drops the decoder's error where it gives one. The contract names what
/// comes back and claims nothing else of it.
#[verifier::external_body]
fn decode_pairs(body: &[u8]) -> (res: Option<Vec<(String, String)>>)
    ensures
        match res {
            Some(pairs) => form_pairs(body@) == Some(pairs.deep_view()),
            None => form_pairs(body@) is None,
        },
{
    serde_urlencoded::from_bytes::<Vec<(String, String)>>(body).ok()
}

/// Why a submitted form gives no credentials.
#[derive(Clone, Copy, Debug, PartialEq, Eq, Structural)]
pub enum FormError {
    /// The body is no form at all.
    Malformed,
    /// The form names the network twice.
    DuplicateName,
    /// The form holds two secrets.
    DuplicateSecret,
    /// The network's name takes more than `NAME_LIMIT` bytes.
    NameTooLong,
    /// The secret takes more than `SECRET_LIMIT` bytes.
    SecretTooLong,
    /// The form does not name the network.
    MissingName,
    /// The form holds no secret.
    MissingSecret,
}

/// The form field that holds the network's name.
pub open spec fn name_field() -> Seq<char> {
    "name"@
}

/// The form field that holds the secret.
pub open spec fn secret_field() -> Seq<char> {
    "secret"@
}

/// Reads the pairs of a form from `at` on, with the name and the secret found
/// before: a field that comes a second time, or is too long, ends the reading
/// at once; other fields are passed over; at the end both must be there.
pub open spec fn read_fields(
    pairs: Seq<(Seq<char>, Seq<char>)>,
    at: int,
    name: Option<Seq<char>>,
    secret: Option<Seq<char>>,
) -> Result<CredentialsView, FormError>
    decreases pairs.len() - at,
{
    if at < 0 || at >= pairs.len() {
        match (name, secret) {
            (None, _) => Err(FormError::MissingName),
            (Some(_), None) => Err(FormError::MissingSecret),
            (Some(n), Some(s)) => Ok(CredentialsView { name: n, secret: s }),
        }
    } else if pairs[at].0 == name_field() {
        if name is Some {
            Err(FormError::DuplicateName)
        } else if byte_len(pairs[at].1) > NAME_LIMIT {
            Err(FormError::NameTooLong)
        } else {
            read_fields(pairs, at + 1, Some(pairs[at].1), secret)
        }
    } else if pairs[at].0 == secret_field() {
        if secret is Some {
            Err(FormError::DuplicateSecret)
        } else if byte_len(pairs[at].1) > SECRET_LIMIT {
            Err(FormError::SecretTooLong)
        } else {
            read_fields(pairs, at + 1, name, Some(pairs[at].1))
        }
    } else {
        read_fields(pairs, at + 1, name, secret)
    }
}

/// The credentials that a form's pairs hold.
pub open spec fn credentials_of(pairs: Seq<(Seq<char>, Seq<char>)>) -> Result<
    CredentialsView,
    FormError,
> {
    read_fields(pairs, 0, None, None)
}

/// The number of pairs from `at` on that belong to `field`.
pub open spec fn times(pairs: Seq<(Seq<char>, Seq<char>)>, field: Seq<char>, at: int) -> nat
    decreases pairs.len() - at,
{
    if at < 0 || at >= pairs.len() {
        0
    } else if pairs[at].0 == field {
        1 + times(pairs, field, at + 1)
    } else {
        times(pairs, field, at + 1)
    }
}

/// The value of the first pair from `at` on that belongs to `field`.
pub open spec fn first_of(pairs: Seq<(Seq<char>, Seq<char>)>, field: Seq<char>, at: int) -> Seq<
    char,
>
    decreases pairs.len() - at,
{
    if at < 0 || at >= pairs.len() {
        Seq::empty()
    } else if pairs[at].0 == field {
        pairs[at].1
    } else {
        first_of(pairs, field, at + 1)
    }
}

/// Whether the pairs from `at` on complete a field of which `found` was
/// read before: they hold it once and within `limit` bytes if it was not
/// read yet, and not at all if it was.
pub open spec fn completes(
    pairs: Seq<(Seq<char>, Seq<char>)>,
    field: Seq<char>,
    limit: nat,
    at: int,
    found: Option<Seq<char>>,
) -> bool {
    match found {
        Some(_) => times(pairs, field, at) == 0,
        None => times(pairs, field, at) == 1 && byte_len(first_of(pairs, field, at)) <= limit,
    }
}

/// What the reading of a form from `at` on comes to, by the fields left to read.
proof fn lemma_read_fields(
    pairs: Seq<(Seq<char>, Seq<char>)>,
    at: int,
    name: Option<Seq<char>>,
    secret: Option<Seq<char>>,
)
    requires
        0 <= at <= pairs.len(),
    ensures
        read_fields(pairs, at, name, secret) is Ok <==> completes(
            pairs,
            name_field(),
            NAME_LIMIT as nat,
            at,
            name,
        ) && completes(pairs, secret_field(), SECRET_LIMIT as nat, at, secret),
        read_fields(pairs, at, name, secret) matches Ok(c) ==> c == (CredentialsView {
            name: match name {
                Some(n) => n,
                None => first_of(pairs, name_field(), at),
            },
            secret: match secret {
                Some(s) => s,
                None => first_of(pairs, secret_field(), at),
            },
        }),
    decreases pairs.len() - at,
{
    reveal_strlit("name");
    reveal_strlit("secret");
    assert(name_field().len() != secret_field().len());
    if at < pairs.len() {
        if pairs[at].0 == name_field() {
            lemma_read_fields(pairs, at + 1, Some(pairs[at].1), secret);
        } else if pairs[at].0 == secret_field() {
            lemma_read_fields(pairs, at + 1, name, Some(pairs[at].1));
        } else {
            lemma_read_fields(pairs, at + 1, name, secret);
        }
    }
}

/// A form gives credentials exactly when it holds the name once and the
/// secret once, each within its limit; the credentials are then that name
/// and that secret, wherever in the form they stand and whatever else it holds.
pub proof fn lemma_form_gives_credentials(pairs: Seq<(Seq<char>, Seq<char>)>)
    ensures
        credentials_of(pairs) is Ok <==> {
            &&& times(pairs, name_field(), 0) == 1
            &&& times(pairs, secret_field(), 0) == 1
            &&& byte_len(first_of(pairs, name_field(), 0)) <= NAME_LIMIT
            &&& byte_len(first_of(pairs, secret_field(), 0)) <= SECRET_LIMIT
        },
        credentials_of(pairs) matches Ok(c) ==> c == (CredentialsView {
            name: first_of(pairs, name_field(), 0),
            secret: first_of(pairs, secret_field(), 0),
        }),
{
    lemma_read_fields(pairs, 0, None, None);
}

/// A form that holds a name and a secret within their limits, once each and
/// in either order, gives that name and that secret.
pub proof fn lemma_form_of_both_fields(name: Seq<char>, secret: Seq<char>)
    requires
        byte_len(name) <= NAME_LIMIT,
        byte_len(secret) <= SECRET_LIMIT,
    ensures
        credentials_of(seq![(name_field(), name), (secret_field(), secret)]) == Ok::<
            CredentialsView,
            FormError,
        >(CredentialsView { name, secret }),
        credentials_of(seq![(secret_field(), secret), (name_field(), name)]) == Ok::<
            CredentialsView,
            FormError,
        >(CredentialsView { name, secret }),
{
    reveal_strlit("name");
    reveal_strlit("secret");
    reveal_with_fuel(read_fields, 3);
    assert(name_field().len() != secret_field().len());
}

/// Whether a result holds credentials whose view is `expected`, or the same error.
pub open spec fn agrees(
    got: Result<Credentials, FormError>,
    expected: Result<CredentialsView, FormError>,
) -> bool {
    match got {
        Ok(c) => expected == Ok::<CredentialsView, FormError>(c@),
        Err(e) => expected == Err::<CredentialsView, FormError>(e),
    }
}

/// Picks the credentials out of the pairs of a submitted form.
pub fn credentials_from_pairs(pairs: Vec<(String, String)>) -> (res: Result<Credentials, FormError>)
    ensures
        agrees(res, credentials_of(pairs.deep_view())),
{
    let ghost all = pairs.deep_view();
    let mut name: Option<String> = None;
    let mut secret: Option<String> = None;
    let mut at: usize = 0;
    let name_key: String = "name".to_owned();
    let secret_key: String = "secret".to_owned();
    while at < pairs.len()
        invariant
            at <= pairs.len(),
            all == pairs.deep_view(),
            name_key@ == name_field(),
            secret_key@ == secret_field(),
            credentials_of(all) == read_fields(all, at as int, name.deep_view(), secret.deep_view()),
            name matches Some(n) ==> byte_len(n@) <= NAME_LIMIT,
            secret matches Some(s) ==> byte_len(s@) <= SECRET_LIMIT,
        decreases pairs.len() - at,
    {
        let key = &pairs[at].0;
        let value = pairs[at].1.as_str();
        if *key == name_key {
            if name.is_some() {
                return Err(FormError::DuplicateName);
            }
            if value.as_bytes().len() > NAME_LIMIT {
                return Err(FormError::NameTooLong);
            }
            name = Some(value.to_owned());
        } else if *key == secret_key {
            if secret.is_some() {
                return Err(FormError::DuplicateSecret);
            }
            if value.as_bytes().len() > SECRET_LIMIT {
                return Err(FormError::SecretTooLong);
            }
            secret = Some(value.to_owned());
        }
        at += 1;
    }
    match (name, secret) {
        (None, _) => Err(FormError::MissingName),
        (Some(_), None) => Err(FormError::MissingSecret),
        (Some(n), Some(s)) => match Credentials::new(n, s) {
            Ok(c) => Ok(c),
            Err(CredentialsError::NameTooLong) => Err(FormError::NameTooLong),
            Err(CredentialsError::SecretTooLong) => Err(FormError::SecretTooLong),
        },
    }
}

/// Decodes the body of a submitted form into credentials.
pub fn decode_credentials(body: &[u8]) -> (res: Result<Credentials, FormError>)
    ensures
        agrees(
            res,
            match form_pairs(body@) {
                Some(pairs) => credentials_of(pairs),
                None => Err(FormError::Malformed),
            },
        ),
{
    match decode_pairs(body) {
        Some(pairs) => credentials_from_pairs(pairs),
        None => Err(FormError::Malformed),
    }
}

/// The selection page up to its list of networks.
pub const PAGE_HEAD: &'static str =
    "<!DOCTYPE html>\n<html>\n<body>\n<form action=\"/wifi_select\" method=\"post\">\n<select name=\"name\">";

/// The selection page after its list of networks.
pub const PAGE_TAIL: &'static str =
    "</select>\n<input type=\"password\" name=\"secret\">\n<input type=\"submit\" value=\"Connect\">\n</form>\n</body>\n</html>";

/// The page that answers a submission.
pub const CONFIRMATION: &'static str = "<!DOCTYPE html>\n<html>\n<body>\nSubmitted!\n</body>\n</html>";

/// The names of the networks of a scan, in its order.
pub open spec fn names_of(found: Seq<AccessPointInfo>) -> Seq<Seq<char>> {
    Seq::new(found.len(), |i: int| found[i].name@)
}

/// What stands in the page for one character of a name: the character
/// itself, or its entity if it is `&`, `<` or `>`, of which markup is made.
pub open spec fn escaped_char(c: char) -> Seq<char> {
    if c == '&' {
        "&amp;"@
    } else if c == '<' {
        "&lt;"@
    } else if c == '>' {
        "&gt;"@
    } else {
        seq![c]
    }
}

/// A name as it stands in the page: each `&`, `<` and `>` replaced by its
/// entity, and every other character as it is.
pub open spec fn escaped(name: Seq<char>) -> Seq<char>
    decreases name.len(),
{
    if name.len() == 0 {
        Seq::empty()
    } else {
        escaped(name.drop_last()) + escaped_char(name.last())
    }
}

/// One `<option>` element for each name, in the names' order, with the name escaped.
pub open spec fn options_markup(names: Seq<Seq<char>>) -> Seq<char>
    decreases names.len(),
{
    if names.len() == 0 {
        Seq::empty()
    } else {
        options_markup(names.drop_last()) + "<option>"@ + escaped(names.last()) + "</option>"@
    }
}

/// The number of `<` in a text: each opens a tag or closes one.
pub open spec fn tags(text: Seq<char>) -> nat
    decreases text.len(),
{
    if text.len() == 0 {
        0
    } else if text.last() == '<' {
        tags(text.drop_last()) + 1
    } else {
        tags(text.drop_last())
    }
}

/// An escaped name holds neither `<` nor `>`, so no tag.
pub proof fn lemma_escaped_holds_no_markup(name: Seq<char>)
    ensures
        forall|i: int|
            0 <= i < escaped(name).len() ==> {
                let c = #[trigger] escaped(name)[i];
                c != '<' && c != '>'
            },
        tags(escaped(name)) == 0,
    decreases name.len(),
{
    reveal_strlit("&amp;");
    reveal_strlit("&lt;");
    reveal_strlit("&gt;");
    if name.len() > 0 {
        lemma_escaped_holds_no_markup(name.drop_last());
        lemma_tags_add_up(escaped(name.drop_last()), escaped_char(name.last()));
        lemma_tags_of_plain_text(escaped_char(name.last()));
    }
}

/// A name that holds none of `&`, `<` and `>` stands in the page as it is.
pub proof fn lemma_plain_name_is_unchanged(name: Seq<char>)
    requires
        forall|i: int|
            0 <= i < name.len() ==> name[i] != '&' && name[i] != '<' && name[i] != '>',
    ensures
        escaped(name) == name,
    decreases name.len(),
{
    if name.len() > 0 {
        lemma_plain_name_is_unchanged(name.drop_last());
        assert(name.drop_last() + seq![name.last()] =~= name);
    }
}

/// One `<option>` element for each name, with the name as it is.
pub open spec fn plain_options(names: Seq<Seq<char>>) -> Seq<char>
    decreases names.len(),
{
    if names.len() == 0 {
        Seq::empty()
    } else {
        plain_options(names.drop_last()) + "<option>"@ + names.last() + "</option>"@
    }
}

/// For networks whose names hold none of `&`, `<` and `>` the choices of the
/// page are the names as they are, each in its element, in the names' order.
pub proof fn lemma_plain_names_stand_as_they_are(names: Seq<Seq<char>>)
    requires
        forall|k: int, i: int|
            0 <= k < names.len() && 0 <= i < names[k].len() ==> names[k][i] != '&' && names[k][i]
                != '<' && names[k][i] != '>',
    ensures
        options_markup(names) == plain_options(names),
    decreases names.len(),
{
    if names.len() > 0 {
        lemma_plain_names_stand_as_they_are(names.drop_last());
        lemma_plain_name_is_unchanged(names.last());
    }
}

/// A text without `<` holds no tag.
pub proof fn lemma_tags_of_plain_text(text: Seq<char>)
    requires
        forall|i: int| 0 <= i < text.len() ==> text[i] != '<',
    ensures
        tags(text) == 0,
    decreases text.len(),
{
    if text.len() > 0 {
        lemma_tags_of_plain_text(text.drop_last());
    }
}

/// The tags of two texts in a row are those of the one and those of the other.
pub proof fn lemma_tags_add_up(a: Seq<char>, b: Seq<char>)
    ensures
        tags(a + b) == tags(a) + tags(b),
    decreases b.len(),
{
    if b.len() > 0 {
        lemma_tags_add_up(a, b.drop_last());
        assert((a + b).drop_last() =~= a + b.drop_last());
    }
}

/// The choices of the page hold one `<option>` element for each name,
/// whatever the names hold: two tags a name, the one that opens its element
/// and the one that closes it.
pub proof fn lemma_one_option_per_name(names: Seq<Seq<char>>)
    ensures
        tags(options_markup(names)) == 2 * names.len(),
    decreases names.len(),
{
    if names.len() > 0 {
        let before = options_markup(names.drop_last());
        let name = escaped(names.last());
        lemma_one_option_per_name(names.drop_last());
        lemma_escaped_holds_no_markup(names.last());
        lemma_tags_add_up(before, "<option>"@);
        lemma_tags_add_up(before + "<option>"@, name);
        lemma_tags_add_up(before + "<option>"@ + name, "</option>"@);
        lemma_tags_of_an_option();
    }
}

/// The text that opens an option holds one tag, and so does the text that closes it.
proof fn lemma_tags_of_an_option()
    ensures
        tags("<option>"@) == 1,
        tags("</option>"@) == 1,
{
    reveal_strlit("<option>");
    reveal_strlit("</option>");
    let bracket = seq!['<'];
    assert(tags(bracket) == 1) by {
        reveal_with_fuel(tags, 2);
    }
    let opens = "<option>"@;
    assert(opens =~= bracket + opens.subrange(1, 8));
    lemma_tags_add_up(bracket, opens.subrange(1, 8));
    lemma_tags_of_plain_text(opens.subrange(1, 8));
    let closes = "</option>"@;
    assert(closes =~= bracket + closes.subrange(1, 9));
    lemma_tags_add_up(bracket, closes.subrange(1, 9));
    lemma_tags_of_plain_text(closes.subrange(1, 9));
}

/// Writes a name as it stands in the page.
pub fn escape(name: &str) -> (text: String)
    ensures
        text@ == escaped(name@),
{
    let len: usize = name.unicode_len();
    let mut text = String::new();
    let mut i: usize = 0;
    while i < len
        invariant
            i <= len,
            len == name@.len(),
            text@ == escaped(name@.take(i as int)),
        decreases len - i,
    {
        let c = name.get_char(i);
        proof {
            let upto = name@.take(i + 1);
            assert(upto.drop_last() =~= name@.take(i as int));
        }
        if c == '&' {
            text.append("&amp;");
        } else if c == '<' {
            text.append("&lt;");
        } else if c == '>' {
            text.append("&gt;");
        } else {
            text.append(name.substring_char(i, i + 1));
        }
        i += 1;
    }
    assert(name@.take(len as int) =~= name@);
    text
}

/// The selection page for the networks of these names.
pub open spec fn page_markup(names: Seq<Seq<char>>) -> Seq<char> {
    PAGE_HEAD@ + options_markup(names) + PAGE_TAIL@
}

/// Writes the choices of the selection page: one `<option>` for each network
/// found, with the network's name escaped.
pub fn generate_wifi_selector(wifi: &[AccessPointInfo]) -> (markup: String)
    ensures
        markup@ == options_markup(names_of(wifi@)),
{
    let ghost names = names_of(wifi@);
    let mut markup = String::new();
    let mut i: usize = 0;
    while i < wifi.len()
        invariant
            i <= wifi.len(),
            names == names_of(wifi@),
            markup@ == options_markup(names.take(i as int)),
        decreases wifi.len() - i,
    {
        proof {
            let upto = names.take(i + 1);
            assert(upto.drop_last() =~= names.take(i as int));
        }
        markup.append("<option>");
        markup.append(escape(wifi[i].name.as_str()).as_str());
        markup.append("</option>");
        i += 1;
    }
    assert(names.take(wifi.len() as int) =~= names);
    markup
}

/// Writes the whole selection page for the networks found.
pub fn render_page(wifi: &[AccessPointInfo]) -> (page: String)
    ensures
        page@ == page_markup(names_of(wifi@)),
{
    let mut page = String::new();
    page.append(PAGE_HEAD);
    page.append(generate_wifi_selector(wifi).as_str());
    page.append(PAGE_TAIL);
    page
}

/// Why the portal gave no credentials, or a request got no answer. A number
/// is the code that the platform gave for the failure.
#[derive(Clone, Copy, Debug, PartialEq, Eq, Structural)]
pub enum Error {
    /// A page could not be registered with the server.
    HttpHandle(i32),
    /// The server could not be brought up.
    SetupEspServer(i32),
    /// The server went down before anyone had submitted credentials.
    NoCredentials,
    /// The answer's content could not be written.
    Write(i32),
    /// The answer could not be opened.
    OkResp(i32),
    /// The submitted form holds no credentials.
    Serialize(FormError),
    /// The submitted form could not be read.
    Read(ReadError),
    /// The scan for the selection page failed.
    Scan(crate::wifi::Error),
}

/// The room that the reader of a submission starts with: enough for a short form.
pub const SUBMISSION_BUFFER_LEN: usize = 40;

/// How the attempt to answer a request went.
#[derive(Clone, Copy, Debug, PartialEq, Eq, Structural)]
pub enum Responded {
    /// The answer went out whole.
    Sent,
    /// The answer could not be opened.
    NotOpened(i32),
    /// The answer was opened, but its content could not be written.
    NotWritten(i32),
}

impl Responded {
    /// The error that stands for an answer that did not go out.
    pub open spec fn failure(self) -> Option<Error> {
        match self {
            Responded::Sent => None,
            Responded::NotOpened(code) => Some(Error::OkResp(code)),
            Responded::NotWritten(code) => Some(Error::Write(code)),
        }
    }
}

/// The selection page for a request, from what the scan made for it gave: the
/// page with its networks in the scan's order, or the scan's failure.
pub fn select_wifi(scan: Result<Vec<AccessPointInfo>, crate::wifi::Error>) -> (res: Result<
    String,
    Error,
>)
    ensures
        match scan {
            Ok(found) => res matches Ok(page) && page@ == page_markup(names_of(found@)),
            Err(e) => res == Err::<String, Error>(Error::Scan(e)),
        },
{
    match scan {
        Ok(found) => Ok(render_page(found.as_slice())),
        Err(e) => Err(Error::Scan(e)),
    }
}

/// Closes a request for the selection page, once the page was sent or not.
pub fn page_sent(outcome: Responded) -> (res: Result<(), Error>)
    ensures
        match outcome.failure() {
            None => res is Ok,
            Some(e) => res == Err::<(), Error>(e),
        },
{
    match outcome {
        Responded::Sent => Ok(()),
        Responded::NotOpened(code) => Err(Error::OkResp(code)),
        Responded::NotWritten(code) => Err(Error::Write(code)),
    }
}

/// The slot through which one pair of credentials passes from the request
/// that brought it to the controller. It is written once: what arrives
/// later leaves it as it is.
#[derive(Debug, PartialEq, Eq)]
pub struct HandoffSlot {
    credentials: Option<Credentials>,
}

impl View for HandoffSlot {
    type V = Option<CredentialsView>;

    closed spec fn view(&self) -> Option<CredentialsView> {
        match self.credentials {
            Some(c) => Some(c@),
            None => None,
        }
    }
}

/// The slot after credentials arrive at it.
pub open spec fn slot_with(slot: Option<CredentialsView>, arriving: CredentialsView) -> Option<
    CredentialsView,
> {
    match slot {
        Some(_) => slot,
        None => Some(arriving),
    }
}

/// The slot after the submissions `arrivals` were handled one after the other,
/// each of them either credentials or a rejection.
pub open spec fn slot_after(
    slot: Option<CredentialsView>,
    arrivals: Seq<Result<CredentialsView, Error>>,
) -> Option<CredentialsView>
    decreases arrivals.len(),
{
    if arrivals.len() == 0 {
        slot
    } else {
        let before = slot_after(slot, arrivals.drop_last());
        match arrivals.last() {
            Ok(c) => slot_with(before, c),
            Err(_) => before,
        }
    }
}

/// What the controller gets out of the slot once the server is down.
pub open spec fn outcome_of(slot: Option<CredentialsView>) -> Result<CredentialsView, Error> {
    match slot {
        Some(c) => Ok(c),
        None => Err(Error::NoCredentials),
    }
}

impl HandoffSlot {
    /// An empty slot.
    pub fn new() -> (slot: HandoffSlot)
        ensures
            slot@ is None,
    {
        HandoffSlot { credentials: None }
    }

    /// Whether credentials have arrived.
    pub fn is_filled(&self) -> (filled: bool)
        ensures
            filled == (self@ is Some),
    {
        self.credentials.is_some()
    }

    /// Puts credentials into the slot if it is empty. Tells whether it did.
    pub fn deliver(&mut self, credentials: Credentials) -> (stored: bool)
        ensures
            final(self)@ == slot_with(old(self)@, credentials@),
            stored == (old(self)@ is None),
    {
        if self.credentials.is_some() {
            false
        } else {
            self.credentials = Some(credentials);
            true
        }
    }

    /// Empties the slot for the controller: the credentials that arrived, or
    /// the word that none did.
    pub fn take(self) -> (res: Result<Credentials, Error>)
        ensures
            match res {
                Ok(c) => outcome_of(self@) == Ok::<CredentialsView, Error>(c@),
                Err(e) => outcome_of(self@) == Err::<CredentialsView, Error>(e),
            },
    {
        match self.credentials {
            Some(c) => Ok(c),
            None => Err(Error::NoCredentials),
        }
    }
}

/// The credentials that a submitted body holds, or why it holds none.
pub open spec fn submitted(body: Result<Seq<u8>, ReadError>) -> Result<CredentialsView, Error> {
    match body {
        Err(e) => Err(Error::Read(e)),
        Ok(bytes) => match form_pairs(bytes) {
            None => Err(Error::Serialize(FormError::Malformed)),
            Some(pairs) => match credentials_of(pairs) {
                Ok(c) => Ok(c),
                Err(e) => Err(Error::Serialize(e)),
            },
        },
    }
}

/// A submission that was read and understood, and waits for its answer to go out.
#[derive(Debug, PartialEq, Eq)]
pub struct Submission {
    credentials: Credentials,
}

impl View for Submission {
    type V = CredentialsView;

    closed spec fn view(&self) -> CredentialsView {
        self.credentials@
    }
}

/// Takes in a submission: `body` is what the reader made of the request's
/// body. A body that could not be read, or holds no credentials, is the
/// request's failure and nothing more.
pub fn wifi_selected(body: Result<Vec<u8>, ReadError>) -> (res: Result<Submission, Error>)
    ensures
        match res {
            Ok(s) => submitted(
                match body {
                    Ok(b) => Ok(b@),
                    Err(e) => Err(e),
                },
            ) == Ok::<CredentialsView, Error>(s@),
            Err(e) => submitted(
                match body {
                    Ok(b) => Ok(b@),
                    Err(e) => Err(e),
                },
            ) == Err::<CredentialsView, Error>(e),
        },
{
    match body {
        Err(e) => Err(Error::Read(e)),
        Ok(bytes) => match decode_credentials(bytes.as_slice()) {
            Ok(credentials) => Ok(Submission { credentials }),
            Err(e) => Err(Error::Serialize(e)),
        },
    }
}

impl Submission {
    /// The page that answers the submission.
    pub fn page(&self) -> (page: &'static str)
        ensures
            page@ == CONFIRMATION@,
    {
        CONFIRMATION
    }

    /// Closes the submission once its answer was sent or not. Only after the
    /// answer went out do the credentials go to the slot; `Ok(true)` says that
    /// they were stored, and that the controller is to be woken.
    pub fn complete(self, outcome: Responded, slot: &mut HandoffSlot) -> (res: Result<bool, Error>)
        ensures
            match outcome.failure() {
                None => {
                    &&& final(slot)@ == slot_with(old(slot)@, self@)
                    &&& res == Ok::<bool, Error>(old(slot)@ is None)
                },
                Some(e) => {
                    &&& final(slot)@ == old(slot)@
                    &&& res == Err::<bool, Error>(e)
                },
            },
    {
        match outcome {
            Responded::Sent => Ok(slot.deliver(self.credentials)),
            Responded::NotOpened(code) => Err(Error::OkResp(code)),
            Responded::NotWritten(code) => Err(Error::Write(code)),
        }
    }
}

/// How a request is made.
#[derive(Clone, Copy, Debug, PartialEq, Eq, Structural)]
pub enum Method {
    Get,
    Post,
}

/// The two pages of the portal.
#[derive(Clone, Copy, Debug, PartialEq, Eq, Structural)]
pub enum Route {
    /// The selection page.
    Selection,
    /// The target of the selection page's form.
    Submission,
}

impl Route {
    /// The path under which the page is registered.
    pub fn path(self) -> (path: &'static str)
        ensures
            path@ == match self {
                Route::Selection => "/"@,
                Route::Submission => "/wifi_select"@,
            },
    {
        match self {
            Route::Selection => "/",
            Route::Submission => "/wifi_select",
        }
    }

    /// The method by which the page is asked for.
    pub fn method(self) -> (method: Method)
        ensures
            method == match self {
                Route::Selection => Method::Get,
                Route::Submission => Method::Post,
            },
    {
        match self {
            Route::Selection => Method::Get,
            Route::Submission => Method::Post,
        }
    }
}

/// Where the portal stands between its start and its end.
#[derive(Clone, Copy, Debug, PartialEq, Eq, Structural)]
pub enum ServerPhase {
    /// Nothing has been asked for yet.
    Idle,
    /// The server is being brought up.
    Opening,
    /// This page is being registered.
    Registering(Route),
    /// Both pages are served, and the controller waits to be woken.
    Waiting,
    /// The server is being taken down.
    Closing,
    /// The portal is over.
    Closed,
}

/// What the portal learns from outside.
#[derive(Debug, PartialEq, Eq)]
pub enum ServerEvent {
    /// The controller wants credentials.
    Begin,
    /// The server is up.
    Opened,
    /// The server did not come up.
    OpenFailed(i32),
    /// The page asked for is registered.
    Registered,
    /// The page asked for could not be registered.
    RegisterFailed(i32),
    /// The controller's wait is over.
    Woken,
    /// The server is down, and this is the slot it shared with its requests.
    Down(HandoffSlot),
}

/// What the portal asks for next.
#[derive(Debug, PartialEq, Eq)]
pub enum ServerAction {
    /// Bring the server up.
    Open,
    /// Register this page.
    Register(Route),
    /// Wait on the slot until woken.
    Wait,
    /// Take the server down and hand in the slot.
    Close,
    /// Drop whatever is left of the server and give this to the controller.
    Return(Result<Credentials, Error>),
}

/// Whether `event` is an answer to what the portal asked for in `phase`.
pub open spec fn expects(phase: ServerPhase, event: ServerEvent) -> bool {
    match (phase, event) {
        (ServerPhase::Idle, ServerEvent::Begin) => true,
        (ServerPhase::Opening, ServerEvent::Opened) => true,
        (ServerPhase::Opening, ServerEvent::OpenFailed(_)) => true,
        (ServerPhase::Registering(_), ServerEvent::Registered) => true,
        (ServerPhase::Registering(_), ServerEvent::RegisterFailed(_)) => true,
        (ServerPhase::Waiting, ServerEvent::Woken) => true,
        (ServerPhase::Closing, ServerEvent::Down(_)) => true,
        _ => false,
    }
}

/// Whether `action` hands the controller credentials of this view, or this error.
pub open spec fn hands_over(action: ServerAction, expected: Result<CredentialsView, Error>) -> bool {
    match action {
        ServerAction::Return(Ok(c)) => expected == Ok::<CredentialsView, Error>(c@),
        ServerAction::Return(Err(e)) => expected == Err::<CredentialsView, Error>(e),
        _ => false,
    }
}

/// Whether the portal goes from `phase` to `next`, asking for `action`, when it learns `event`.
pub open spec fn server_follows(
    phase: ServerPhase,
    event: ServerEvent,
    next: ServerPhase,
    action: ServerAction,
) -> bool {
    match (phase, event) {
        (ServerPhase::Idle, ServerEvent::Begin) => next == ServerPhase::Opening && action
            == ServerAction::Open,
        (ServerPhase::Opening, ServerEvent::Opened) => next == ServerPhase::Registering(
            Route::Selection,
        ) && action == ServerAction::Register(Route::Selection),
        (ServerPhase::Opening, ServerEvent::OpenFailed(code)) => next == ServerPhase::Closed
            && hands_over(action, Err(Error::SetupEspServer(code))),
        (ServerPhase::Registering(Route::Selection), ServerEvent::Registered) => next
            == ServerPhase::Registering(Route::Submission) && action == ServerAction::Register(
            Route::Submission,
        ),
        (ServerPhase::Registering(Route::Submission), ServerEvent::Registered) => next
            == ServerPhase::Waiting && action == ServerAction::Wait,
        (ServerPhase::Registering(_), ServerEvent::RegisterFailed(code)) => next
            == ServerPhase::Closed && hands_over(action, Err(Error::HttpHandle(code))),
        (ServerPhase::Waiting, ServerEvent::Woken) => next == ServerPhase::Closing && action
            == ServerAction::Close,
        (ServerPhase::Closing, ServerEvent::Down(slot)) => next == ServerPhase::Closed && hands_over(
            action,
            outcome_of(slot@),
        ),
        _ => false,
    }
}

/// Whether `event` is an answer to what the portal asked for in `phase`.
pub fn accepts(phase: ServerPhase, event: &ServerEvent) -> (ok: bool)
    ensures
        ok == expects(phase, *event),
{
    match (phase, event) {
        (ServerPhase::Idle, ServerEvent::Begin) => true,
        (ServerPhase::Opening, ServerEvent::Opened) => true,
        (ServerPhase::Opening, ServerEvent::OpenFailed(_)) => true,
        (ServerPhase::Registering(_), ServerEvent::Registered) => true,
        (ServerPhase::Registering(_), ServerEvent::RegisterFailed(_)) => true,
        (ServerPhase::Waiting, ServerEvent::Woken) => true,
        (ServerPhase::Closing, ServerEvent::Down(_)) => true,
        _ => false,
    }
}

/// One step of the portal's life: brings the server up, registers the
/// selection page and then the submission's target, waits, and once woken
/// takes the server down before it looks into the slot. A server that does
/// not come up, or refuses a page, ends the portal with that failure.
pub fn setup_wifi_setup_server(phase: ServerPhase, event: ServerEvent) -> (next: (
    ServerPhase,
    ServerAction,
))
    requires
        expects(phase, event),
    ensures
        server_follows(phase, event, next.0, next.1),
{
    match event {
        ServerEvent::Begin => (ServerPhase::Opening, ServerAction::Open),
        ServerEvent::Opened => (
            ServerPhase::Registering(Route::Selection),
            ServerAction::Register(Route::Selection),
        ),
        ServerEvent::OpenFailed(code) => (
            ServerPhase::Closed,
            ServerAction::Return(Err(Error::SetupEspServer(code))),
        ),
        ServerEvent::Registered => match phase {
            ServerPhase::Registering(Route::Selection) => (
                ServerPhase::Registering(Route::Submission),
                ServerAction::Register(Route::Submission),
            ),
            _ => (ServerPhase::Waiting, ServerAction::Wait),
        },
        ServerEvent::RegisterFailed(code) => (
            ServerPhase::Closed,
            ServerAction::Return(Err(Error::HttpHandle(code))),
        ),
        ServerEvent::Woken => (ServerPhase::Closing, ServerAction::Close),
        ServerEvent::Down(slot) => (ServerPhase::Closed, ServerAction::Return(slot.take())),
    }
}

/// Of all the submissions that reach one portal, the first that holds
/// credentials is the one the controller gets, whatever comes after it; and
/// if none holds any, the controller is told that there are no credentials.
pub proof fn lemma_first_submission_wins(arrivals: Seq<Result<CredentialsView, Error>>)
    ensures
        (forall|i: int| 0 <= i < arrivals.len() ==> arrivals[i] is Err) ==> outcome_of(
            slot_after(None, arrivals),
        ) == Err::<CredentialsView, Error>(Error::NoCredentials),
        forall|i: int|
            0 <= i < arrivals.len() && arrivals[i] is Ok && (forall|j: int|
                0 <= j < i ==> arrivals[j] is Err) ==> outcome_of(slot_after(None, arrivals))
                == arrivals[i],
    decreases arrivals.len(),
{
    if arrivals.len() > 0 {
        let before = arrivals.drop_last();
        lemma_first_submission_wins(before);
        assert forall|i: int|
            0 <= i < arrivals.len() && arrivals[i] is Ok && (forall|j: int|
                0 <= j < i ==> arrivals[j] is Err) implies outcome_of(slot_after(None, arrivals))
            == arrivals[i] by {
            if i < before.len() {
                assert(before[i] == arrivals[i]);
            }
        }
    }
}

/// A slot that holds credentials keeps them through every later submission.
pub proof fn lemma_filled_slot_keeps(
    held: CredentialsView,
    arrivals: Seq<Result<CredentialsView, Error>>,
)
    ensures
        slot_after(Some(held), arrivals) == Some(held),
    decreases arrivals.len(),
{
    if arrivals.len() > 0 {
        lemma_filled_slot_keeps(held, arrivals.drop_last());
    }
}

impl FormError {
    /// What the failure says of itself.
    pub open spec fn message_text(self) -> Seq<char> {
        match self {
            FormError::Malformed => "the body is no form"@,
            FormError::DuplicateName => "duplicate field `name`"@,
            FormError::DuplicateSecret => "duplicate field `secret`"@,
            FormError::NameTooLong => "the name is longer than 32 bytes"@,
            FormError::SecretTooLong => "the secret is longer than 64 bytes"@,
            FormError::MissingName => "missing field `name`"@,
            FormError::MissingSecret => "missing field `secret`"@,
        }
    }

    /// What the failure says of itself.
    pub fn message(&self) -> (message: &'static str)
        ensures
            message@ == self.message_text(),
    {
        match self {
            FormError::Malformed => "the body is no form",
            FormError::DuplicateName => "duplicate field `name`",
            FormError::DuplicateSecret => "duplicate field `secret`",
            FormError::NameTooLong => "the name is longer than 32 bytes",
            FormError::SecretTooLong => "the secret is longer than 64 bytes",
            FormError::MissingName => "missing field `name`",
            FormError::MissingSecret => "missing field `secret`",
        }
    }
}

impl Error {
    /// What the failure says of itself; a failed scan speaks for it.
    pub open spec fn message_text(self) -> Seq<char> {
        match self {
            Error::HttpHandle(_) => "Failed to setup HTTP client"@,
            Error::SetupEspServer(_) => "Failed to setup ESP server"@,
            Error::NoCredentials => "Failed to get credentials"@,
            Error::Write(_) => "Failed to write a response content"@,
            Error::OkResp(_) => "Failed to initiate a response"@,
            Error::Serialize(_) => "Failed to serialize credentials"@,
            Error::Read(_) => "Failed to read a request body"@,
            Error::Scan(e) => e.message_text(),
        }
    }

    /// The failure's message and those of its causes.
    pub open spec fn chain_text(self) -> Seq<Seq<char>> {
        match self {
            Error::Serialize(e) => seq![self.message_text(), e.message_text()],
            Error::Read(e) => seq![self.message_text(), e.message_text()],
            _ => seq![self.message_text()],
        }
    }

    /// What the failure says of itself; a failed scan speaks for it.
    pub fn message(&self) -> (message: &'static str)
        ensures
            message@ == self.message_text(),
    {
        match self {
            Error::HttpHandle(_) => "Failed to setup HTTP client",
            Error::SetupEspServer(_) => "Failed to setup ESP server",
            Error::NoCredentials => "Failed to get credentials",
            Error::Write(_) => "Failed to write a response content",
            Error::OkResp(_) => "Failed to initiate a response",
            Error::Serialize(_) => "Failed to serialize credentials",
            Error::Read(_) => "Failed to read a request body",
            Error::Scan(e) => e.message(),
        }
    }

    /// The failure's message and those of its causes, for one line.
    pub fn chain(&self) -> (messages: Vec<String>)
        ensures
            messages.deep_view() == self.chain_text(),
    {
        match self {
            Error::Serialize(e) => {
                let messages = crate::error::caused(
                    self.message(),
                    crate::error::uncaused(e.message()),
                );
                messages
            },
            Error::Read(e) => {
                let messages = crate::error::caused(
                    self.message(),
                    crate::error::uncaused(e.message()),
                );
                messages
            },
            _ => crate::error::uncaused(self.message()),
        }
    }

    /// The code that the platform gave for the failure, if it came from the platform.
    pub open spec fn platform_code(self) -> Option<i32> {
        match self {
            Error::HttpHandle(code) => Some(code),
            Error::SetupEspServer(code) => Some(code),
            Error::Write(code) => Some(code),
            Error::OkResp(code) => Some(code),
            Error::Scan(e) => e.platform_code(),
            _ => None,
        }
    }

    /// The code that the platform gave for the failure, if it came from the platform.
    pub fn code(&self) -> (code: Option<i32>)
        ensures
            code == self.platform_code(),
    {
        match self {
            Error::HttpHandle(code) => Some(*code),
            Error::SetupEspServer(code) => Some(*code),
            Error::Write(code) => Some(*code),
            Error::OkResp(code) => Some(*code),
            Error::Scan(e) => e.code(),
            _ => None,
        }
    }
}

} // verus!
