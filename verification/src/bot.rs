//! The dialogue that leads a user from the start button to a payment link.
//!
//! Every handler is a function from the dialogue state and what the user sent
//! to the list of actions that the bot performs, in order. The caller performs
//! them one after the other and stops at the first one that fails, as the
//! handlers of the bot do with `?`.
use vstd::prelude::*;

use crate::models::Currency;
use crate::text::{
    decimal, decimal_string, escape_html, escape_html_spec, is_ascii_text, is_ascii_text_spec,
    parse_u32, parse_u32_spec, push_decimal, str_eq, trim, trim_spec,
};
use vstd::utf8::encode_utf8;

verus! {

/// Longest product name that is accepted, in bytes.
pub const MAX_NAME_LENGTH: usize = 100;

/// Highest price that is accepted.
pub const MAX_PRICE: u32 = 1_000_000;

// ---------------------------------------------------------------------------
// Configuration and access
// ---------------------------------------------------------------------------

/// Who may use the bot, and where payment notifications go.
#[derive(Clone, Debug, PartialEq, Eq)]
pub struct BotConfig {
    /// Telegram user ids that may use the bot; an empty list lets everyone in.
    pub allowed_users: Vec<u64>,
    /// Chat that receives a notification for every payment link created.
    pub channel_chat_id: i64,
}

pub open spec fn is_allowed_spec(user_id: u64, allowed_users: Seq<u64>) -> bool {
    allowed_users.len() == 0 || allowed_users.contains(user_id)
}

/// Whether the user may use the bot: the whitelist is empty or holds the user.
pub fn is_allowed(user_id: u64, config: &BotConfig) -> (b: bool)
    ensures
        b == is_allowed_spec(user_id, config.allowed_users@),
{
    let n = config.allowed_users.len();
    if n == 0 {
        return true;
    }
    let mut i: usize = 0;
    while i < n
        invariant
            n == config.allowed_users@.len(),
            i <= n,
            forall|k: int| 0 <= k < i ==> config.allowed_users@[k] != user_id,
        decreases n - i,
    {
        if config.allowed_users[i] == user_id {
            assert(config.allowed_users@[i as int] == user_id);
            return true;
        }
        i = i + 1;
    }
    false
}

// ---------------------------------------------------------------------------
// Dialogue state
// ---------------------------------------------------------------------------

/// Where a user is in the dialogue.
#[derive(Clone, Debug, PartialEq, Eq)]
pub enum State {
    Start,
    ReceiveName,
    ReceiveCurrency { name: String },
    ReceivePrice { name: String, currency: Currency },
    Confirm { name: String, currency: Currency, price: u32 },
}

pub enum StateView {
    Start,
    ReceiveName,
    ReceiveCurrency { name: Seq<char> },
    ReceivePrice { name: Seq<char>, currency: Currency },
    Confirm { name: Seq<char>, currency: Currency, price: u32 },
}

impl View for State {
    type V = StateView;

    open spec fn view(&self) -> StateView {
        match self {
            State::Start => StateView::Start,
            State::ReceiveName => StateView::ReceiveName,
            State::ReceiveCurrency { name } => StateView::ReceiveCurrency { name: name@ },
            State::ReceivePrice { name, currency } => StateView::ReceivePrice {
                name: name@,
                currency: *currency,
            },
            State::Confirm { name, currency, price } => StateView::Confirm {
                name: name@,
                currency: *currency,
                price: *price,
            },
        }
    }
}

impl Default for State {
    fn default() -> (s: State)
        ensures
            s@ == StateView::Start,
    {
        State::Start
    }
}

/// A product name as the dialogue accepts it: not empty, English text only,
/// at most `MAX_NAME_LENGTH` bytes.
pub open spec fn valid_name(name: Seq<char>) -> bool {
    &&& name.len() > 0
    &&& is_ascii_text_spec(name)
    &&& encode_utf8(name).len() <= MAX_NAME_LENGTH
}

pub open spec fn valid_price(price: u32) -> bool {
    0 < price <= MAX_PRICE
}

impl StateView {
    /// What every state that the dialogue reaches satisfies: the name and the
    /// price that it carries passed validation.
    pub open spec fn wf(self) -> bool {
        match self {
            StateView::Start => true,
            StateView::ReceiveName => true,
            StateView::ReceiveCurrency { name } => valid_name(name),
            StateView::ReceivePrice { name, .. } => valid_name(name),
            StateView::Confirm { name, price, .. } => valid_name(name) && valid_price(price),
        }
    }
}

// ---------------------------------------------------------------------------
// Keyboards and outgoing messages
// ---------------------------------------------------------------------------

/// A button of an inline keyboard: its label and the callback data it sends.
#[derive(Clone, Debug, PartialEq, Eq)]
pub struct Button {
    pub text: String,
    pub data: String,
}

pub struct ButtonView {
    pub text: Seq<char>,
    pub data: Seq<char>,
}

impl View for Button {
    type V = ButtonView;

    open spec fn view(&self) -> ButtonView {
        ButtonView { text: self.text@, data: self.data@ }
    }
}

/// An inline keyboard, row by row.
#[derive(Clone, Debug, PartialEq, Eq)]
pub struct Keyboard {
    pub rows: Vec<Vec<Button>>,
}

impl View for Keyboard {
    type V = Seq<Seq<ButtonView>>;

    open spec fn view(&self) -> Seq<Seq<ButtonView>> {
        self.rows@.map_values(|r: Vec<Button>| r@.map_values(|b: Button| b@))
    }
}

/// A message that the bot sends.
#[derive(Clone, Debug, PartialEq, Eq)]
pub struct Outgoing {
    pub text: String,
    /// The text is in Telegram's HTML parse mode.
    pub html: bool,
    pub keyboard: Option<Keyboard>,
    /// Link previews are switched off for the message.
    pub no_preview: bool,
}

pub struct OutgoingView {
    pub text: Seq<char>,
    pub html: bool,
    pub keyboard: Option<Seq<Seq<ButtonView>>>,
    pub no_preview: bool,
}

impl View for Outgoing {
    type V = OutgoingView;

    open spec fn view(&self) -> OutgoingView {
        OutgoingView {
            text: self.text@,
            html: self.html,
            keyboard: match self.keyboard {
                Some(k) => Some(k@),
                None => None,
            },
            no_preview: self.no_preview,
        }
    }
}

/// Something the bot does in answer to an update.
#[derive(Clone, Debug, PartialEq, Eq)]
pub enum Action {
    /// Answers the callback query that the update carries.
    AnswerCallback,
    /// Sends a message to the chat of the update.
    Send(Outgoing),
    /// Replaces the text of the message that the callback query came from.
    EditText(String),
    /// Sends a message to the notification channel; a failure there is only
    /// logged.
    NotifyChannel(Outgoing),
    /// Stores the new dialogue state.
    Update(State),
    /// Resets the dialogue to its start.
    Reset,
    /// Asks the payment service for a link; the outcome goes to
    /// `finish_payment_link`.
    CreatePaymentLink { name: String, currency: Currency, price: u32 },
    /// The handler ends with this error.
    Fail(String),
}

pub enum ActionView {
    AnswerCallback,
    Send(OutgoingView),
    EditText(Seq<char>),
    NotifyChannel(OutgoingView),
    Update(StateView),
    Reset,
    CreatePaymentLink { name: Seq<char>, currency: Currency, price: u32 },
    Fail(Seq<char>),
}

impl View for Action {
    type V = ActionView;

    open spec fn view(&self) -> ActionView {
        match self {
            Action::AnswerCallback => ActionView::AnswerCallback,
            Action::Send(o) => ActionView::Send(o@),
            Action::EditText(t) => ActionView::EditText(t@),
            Action::NotifyChannel(o) => ActionView::NotifyChannel(o@),
            Action::Update(s) => ActionView::Update(s@),
            Action::Reset => ActionView::Reset,
            Action::CreatePaymentLink { name, currency, price } => ActionView::CreatePaymentLink {
                name: name@,
                currency: *currency,
                price: *price,
            },
            Action::Fail(e) => ActionView::Fail(e@),
        }
    }
}

pub open spec fn actions_view(v: Seq<Action>) -> Seq<ActionView> {
    v.map_values(|a: Action| a@)
}

pub open spec fn opt_view(o: Option<&str>) -> Option<Seq<char>> {
    match o {
        Some(s) => Some(s@),
        None => None,
    }
}

/// The text of an optional message, empty when there is none.
pub open spec fn text_or_empty(o: Option<Seq<char>>) -> Seq<char> {
    match o {
        Some(s) => s,
        None => Seq::empty(),
    }
}

pub open spec fn plain(text: Seq<char>) -> ActionView {
    ActionView::Send(OutgoingView { text, html: false, keyboard: None, no_preview: false })
}

pub open spec fn with_keyboard(text: Seq<char>, k: Seq<Seq<ButtonView>>) -> ActionView {
    ActionView::Send(OutgoingView { text, html: false, keyboard: Some(k), no_preview: false })
}

fn send_plain(text: String) -> (a: Action)
    ensures
        a@ == plain(text@),
{
    Action::Send(Outgoing { text, html: false, keyboard: None, no_preview: false })
}

fn send_with_keyboard(text: String, k: Keyboard) -> (a: Action)
    ensures
        a@ == with_keyboard(text@, k@),
{
    Action::Send(Outgoing { text, html: false, keyboard: Some(k), no_preview: false })
}

fn button(text: &str, data: &str) -> (b: Button)
    ensures
        b@ == (ButtonView { text: text@, data: data@ }),
{
    Button { text: String::from_str(text), data: String::from_str(data) }
}

fn one_row(row: Vec<Button>) -> (k: Keyboard)
    ensures
        k@ == seq![row@.map_values(|b: Button| b@)],
{
    let mut rows: Vec<Vec<Button>> = Vec::new();
    rows.push(row);
    let k = Keyboard { rows };
    assert(k@ =~= seq![k.rows@[0]@.map_values(|b: Button| b@)]);
    k
}

pub open spec fn start_keyboard_spec() -> Seq<Seq<ButtonView>> {
    seq![seq![ButtonView { text: "💳 Создать ссылку на оплату"@, data: "create_link"@ }]]
}

pub open spec fn currency_keyboard_spec() -> Seq<Seq<ButtonView>> {
    seq![
        seq![
            ButtonView { text: "🇮🇱 ILS"@, data: "ILS"@ },
            ButtonView { text: "🇺🇸 USD"@, data: "USD"@ },
            ButtonView { text: "🇪🇺 EUR"@, data: "EUR"@ },
        ],
    ]
}

pub open spec fn confirm_keyboard_spec() -> Seq<Seq<ButtonView>> {
    seq![
        seq![
            ButtonView { text: "✅ Подтвердить"@, data: "confirm"@ },
            ButtonView { text: "❌ Отмена"@, data: "cancel"@ },
        ],
    ]
}

/// The keyboard with the single button that starts a new payment link.
pub fn start_keyboard() -> (k: Keyboard)
    ensures
        k@ == start_keyboard_spec(),
{
    let mut row: Vec<Button> = Vec::new();
    row.push(button("💳 Создать ссылку на оплату", "create_link"));
    let k = one_row(row);
    assert(k@[0] =~= start_keyboard_spec()[0]);
    assert(k@ =~= start_keyboard_spec());
    k
}

/// The keyboard with one button per currency.
pub fn currency_keyboard() -> (k: Keyboard)
    ensures
        k@ == currency_keyboard_spec(),
{
    let mut row: Vec<Button> = Vec::new();
    row.push(button("🇮🇱 ILS", "ILS"));
    row.push(button("🇺🇸 USD", "USD"));
    row.push(button("🇪🇺 EUR", "EUR"));
    let k = one_row(row);
    assert(k@[0] =~= currency_keyboard_spec()[0]);
    assert(k@ =~= currency_keyboard_spec());
    k
}

/// The keyboard that confirms or cancels a payment link.
pub fn confirm_keyboard() -> (k: Keyboard)
    ensures
        k@ == confirm_keyboard_spec(),
{
    let mut row: Vec<Button> = Vec::new();
    row.push(button("✅ Подтвердить", "confirm"));
    row.push(button("❌ Отмена", "cancel"));
    let k = one_row(row);
    assert(k@[0] =~= confirm_keyboard_spec()[0]);
    assert(k@ =~= confirm_keyboard_spec());
    k
}

// ---------------------------------------------------------------------------
// Texts
// ---------------------------------------------------------------------------

pub open spec fn rule() -> Seq<char> {
    "━━━━━━━━━━━━━━━━━━━━"@
}

/// The lines with the currency and the price, and the rule below them.
pub open spec fn amount_lines(currency: Currency, price: u32) -> Seq<char> {
    currency.flag_spec() + "  "@ + currency.code_spec() + "\n💰  <b>"@ + currency.symbol_spec()
        + decimal(price as nat) + "</b>\n"@ + rule() + "\n"@
}

fn push_amount_lines(s: &mut String, currency: Currency, price: u32)
    ensures
        final(s)@ == old(s)@ + amount_lines(currency, price),
{
    s.append(currency.flag());
    s.append("  ");
    s.append(currency.code());
    s.append("\n💰  <b>");
    s.append(currency.symbol());
    push_decimal(s, price as u64);
    s.append("</b>\n");
    s.append("━━━━━━━━━━━━━━━━━━━━");
    s.append("\n");
    assert(s@ =~= old(s)@ + amount_lines(currency, price));
}

/// The summary shown before the user confirms.
pub open spec fn summary_text(name: Seq<char>, currency: Currency, price: u32) -> Seq<char> {
    "<b>📋 Сводка платежа</b>\n"@ + rule() + "\n📦  <b>"@ + escape_html_spec(name) + "</b>\n"@
        + amount_lines(currency, price) + "Подтвердите для создания ссылки"@
}

/// The message that hands the payment link to the user.
pub open spec fn link_ready_text(
    name: Seq<char>,
    currency: Currency,
    price: u32,
    url: Seq<char>,
) -> Seq<char> {
    "<b>✅ Ссылка на оплату готова</b>\n"@ + rule() + "\n📦  "@ + escape_html_spec(name) + "\n"@
        + amount_lines(currency, price) + "🔗  <a href=\""@ + url
        + "\">Открыть страницу оплаты</a>"@
}

/// The name under which the author of a payment link is shown.
pub open spec fn author_name(first_name: Seq<char>, last_name: Option<Seq<char>>) -> Seq<char> {
    match last_name {
        Some(last) => first_name + " "@ + last,
        None => first_name,
    }
}

/// The notification that the channel receives for a payment link.
pub open spec fn channel_text(
    author: AuthorView,
    name: Seq<char>,
    currency: Currency,
    price: u32,
    url: Seq<char>,
) -> Seq<char> {
    "💳  <b><a href=\"tg://user?id="@ + decimal(author.id as nat) + "\">"@ + escape_html_spec(
        author_name(author.first_name, author.last_name),
    ) + "</a></b>\n"@ + rule() + "\n📦  <b>"@ + escape_html_spec(name) + "</b>\n"@ + amount_lines(
        currency,
        price,
    ) + "🔗  <a href=\""@ + url + "\">Ссылка на оплату</a>"@
}

pub open spec fn name_too_long_text() -> Seq<char> {
    "⚠️ Название слишком длинное (макс. "@ + decimal(MAX_NAME_LENGTH as nat)
        + " символов). Попробуйте короче:"@
}

pub open spec fn price_too_high_text() -> Seq<char> {
    "⚠️ Сумма слишком большая (макс. "@ + decimal(MAX_PRICE as nat) + "). Введите сумму:"@
}

pub open spec fn currency_chosen_text(currency: Currency) -> Seq<char> {
    "Валюта: "@ + currency.code_spec()
}

/// The user who confirmed a payment link.
#[derive(Clone, Debug, PartialEq, Eq)]
pub struct Author {
    pub id: u64,
    pub first_name: String,
    pub last_name: Option<String>,
}

pub struct AuthorView {
    pub id: u64,
    pub first_name: Seq<char>,
    pub last_name: Option<Seq<char>>,
}

impl View for Author {
    type V = AuthorView;

    open spec fn view(&self) -> AuthorView {
        AuthorView {
            id: self.id,
            first_name: self.first_name@,
            last_name: match &self.last_name {
                Some(l) => Some(l@),
                None => None,
            },
        }
    }
}

// ---------------------------------------------------------------------------
// Handlers
// ---------------------------------------------------------------------------

pub open spec fn handle_start_spec() -> Seq<ActionView> {
    seq![
        with_keyboard(
            "Добро пожаловать! Нажмите кнопку, чтобы создать ссылку на оплату."@,
            start_keyboard_spec(),
        ),
    ]
}

/// A message in the start state: greets the user and shows the start button.
pub fn handle_start() -> (r: Vec<Action>)
    ensures
        actions_view(r@) == handle_start_spec(),
{
    let mut r: Vec<Action> = Vec::new();
    r.push(
        send_with_keyboard(
            String::from_str("Добро пожаловать! Нажмите кнопку, чтобы создать ссылку на оплату."),
            start_keyboard(),
        ),
    );
    assert(actions_view(r@) =~= handle_start_spec());
    r
}

pub open spec fn handle_start_callback_spec(
    data: Option<Seq<char>>,
    has_message: bool,
) -> Seq<ActionView> {
    if data != Some("create_link"@) {
        seq![ActionView::AnswerCallback]
    } else if has_message {
        seq![
            ActionView::AnswerCallback,
            plain("Введите название продукта (только английские буквы):"@),
            ActionView::Update(StateView::ReceiveName),
        ]
    } else {
        seq![ActionView::AnswerCallback, ActionView::Update(StateView::ReceiveName)]
    }
}

/// A button press in the start state: the start button asks for a product name.
pub fn handle_start_callback(data: Option<&str>, has_message: bool) -> (r: Vec<Action>)
    ensures
        actions_view(r@) == handle_start_callback_spec(opt_view(data), has_message),
{
    let mut r: Vec<Action> = Vec::new();
    r.push(Action::AnswerCallback);
    let pressed = match data {
        Some(d) => str_eq(d, "create_link"),
        None => false,
    };
    if !pressed {
        assert(actions_view(r@) =~= handle_start_callback_spec(opt_view(data), has_message));
        return r;
    }
    if has_message {
        r.push(send_plain(String::from_str("Введите название продукта (только английские буквы):")));
    }
    r.push(Action::Update(State::ReceiveName));
    assert(actions_view(r@) =~= handle_start_callback_spec(opt_view(data), has_message));
    r
}

pub open spec fn receive_name_spec(text: Option<Seq<char>>) -> Seq<ActionView> {
    let name = trim_spec(text_or_empty(text));
    if name.len() == 0 {
        seq![plain("Название не может быть пустым. Введите название продукта:"@)]
    } else if !is_ascii_text_spec(name) {
        seq![
            plain(
                "⚠️ Название должно содержать только английские буквы.\nПожалуйста, введите название на английском:"@,
            ),
        ]
    } else if encode_utf8(name).len() > MAX_NAME_LENGTH {
        seq![plain(name_too_long_text())]
    } else {
        seq![
            with_keyboard("Выберите валюту:"@, currency_keyboard_spec()),
            ActionView::Update(StateView::ReceiveCurrency { name }),
        ]
    }
}

proof fn lemma_ascii_text_char_is_ascii(c: char)
    requires
        crate::text::is_ascii_text_char(c),
    ensures
        '\0' <= c <= '\u{7f}',
{
}

proof fn lemma_ascii_text_is_ascii(s: Seq<char>)
    requires
        is_ascii_text_spec(s),
    ensures
        encode_utf8(s).len() == s.len(),
{
    assert forall|i: int| 0 <= i < s.len() implies '\0' <= #[trigger] s[i] <= '\u{7f}' by {
        lemma_ascii_text_char_is_ascii(s[i]);
    }
    vstd::utf8::is_ascii_chars_encode_utf8(s);
}

/// A message while a product name is expected: the trimmed text becomes the
/// name when it is not empty, English text only and short enough.
pub fn receive_name(text: Option<&str>) -> (r: Vec<Action>)
    ensures
        actions_view(r@) == receive_name_spec(opt_view(text)),
{
    let name = match text {
        Some(t) => trim(t),
        None => String::new(),
    };
    assert(name@ == trim_spec(text_or_empty(opt_view(text))));
    let mut r: Vec<Action> = Vec::new();
    let nchars = name.as_str().unicode_len();
    if nchars == 0 {
        r.push(send_plain(String::from_str("Название не может быть пустым. Введите название продукта:")));
        assert(actions_view(r@) =~= receive_name_spec(opt_view(text)));
        return r;
    }
    if !is_ascii_text(name.as_str()) {
        r.push(
            send_plain(
                String::from_str(
                    "⚠️ Название должно содержать только английские буквы.\nПожалуйста, введите название на английском:",
                ),
            ),
        );
        assert(actions_view(r@) =~= receive_name_spec(opt_view(text)));
        return r;
    }
    proof {
        lemma_ascii_text_is_ascii(name@);
    }
    // Only ASCII text reaches this point, so its length in bytes is its number of characters.
    if nchars > MAX_NAME_LENGTH {
        let mut t = String::from_str("⚠️ Название слишком длинное (макс. ");
        push_decimal(&mut t, MAX_NAME_LENGTH as u64);
        t.append(" символов). Попробуйте короче:");
        r.push(send_plain(t));
        assert(actions_view(r@) =~= receive_name_spec(opt_view(text)));
        return r;
    }
    r.push(send_with_keyboard(String::from_str("Выберите валюту:"), currency_keyboard()));
    r.push(Action::Update(State::ReceiveCurrency { name }));
    assert(actions_view(r@) =~= receive_name_spec(opt_view(text)));
    r
}

pub open spec fn receive_currency_callback_spec(
    data: Option<Seq<char>>,
    has_message: bool,
    name: Seq<char>,
) -> Seq<ActionView> {
    match data {
        None => seq![ActionView::AnswerCallback],
        Some(d) => match Currency::parse_spec(d) {
            None => seq![ActionView::AnswerCallback, ActionView::Fail(Currency::unknown_message(d))],
            Some(c) => if has_message {
                seq![
                    ActionView::AnswerCallback,
                    ActionView::EditText(currency_chosen_text(c)),
                    plain("Введите сумму (целое число):"@),
                    ActionView::Update(StateView::ReceivePrice { name, currency: c }),
                ]
            } else {
                seq![
                    ActionView::AnswerCallback,
                    ActionView::Update(StateView::ReceivePrice { name, currency: c }),
                ]
            },
        },
    }
}

/// A button press while a currency is expected: the button's data names the
/// currency; anything else ends the handler with an error.
pub fn receive_currency_callback(data: Option<&str>, has_message: bool, name: String) -> (r: Vec<
    Action,
>)
    ensures
        actions_view(r@) == receive_currency_callback_spec(opt_view(data), has_message, name@),
{
    let mut r: Vec<Action> = Vec::new();
    r.push(Action::AnswerCallback);
    let d = match data {
        Some(d) => d,
        None => {
            assert(actions_view(r@) =~= receive_currency_callback_spec(
                opt_view(data),
                has_message,
                name@,
            ));
            return r;
        },
    };
    match Currency::from_str(d) {
        Err(e) => {
            r.push(Action::Fail(e));
        },
        Ok(currency) => {
            if has_message {
                let mut t = String::from_str("Валюта: ");
                t.append(currency.code());
                r.push(Action::EditText(t));
                r.push(send_plain(String::from_str("Введите сумму (целое число):")));
            }
            r.push(Action::Update(State::ReceivePrice { name, currency }));
        },
    }
    assert(actions_view(r@) =~= receive_currency_callback_spec(opt_view(data), has_message, name@));
    r
}

pub open spec fn receive_price_spec(
    text: Option<Seq<char>>,
    name: Seq<char>,
    currency: Currency,
) -> Seq<ActionView> {
    match parse_u32_spec(trim_spec(text_or_empty(text))) {
        Some(p) => if valid_price(p) {
            seq![
                ActionView::Send(
                    OutgoingView {
                        text: summary_text(name, currency, p),
                        html: true,
                        keyboard: Some(confirm_keyboard_spec()),
                        no_preview: false,
                    },
                ),
                ActionView::Update(StateView::Confirm { name, currency, price: p }),
            ]
        } else if p > MAX_PRICE {
            seq![plain(price_too_high_text())]
        } else {
            seq![plain("Неверная сумма. Введите целое число больше 0:"@)]
        },
        None => seq![plain("Неверная сумма. Введите целое число больше 0:"@)],
    }
}

/// A message while a price is expected: a whole number from 1 to `MAX_PRICE`
/// leads to the summary and the confirmation buttons.
pub fn receive_price(text: Option<&str>, name: String, currency: Currency) -> (r: Vec<Action>)
    ensures
        actions_view(r@) == receive_price_spec(opt_view(text), name@, currency),
{
    let t = match text {
        Some(t) => trim(t),
        None => String::new(),
    };
    assert(t@ == trim_spec(text_or_empty(opt_view(text))));
    let mut r: Vec<Action> = Vec::new();
    let parsed = parse_u32(t.as_str());
    match parsed {
        Some(p) if p > 0 && p <= MAX_PRICE => {
            let mut s = String::from_str("<b>📋 Сводка платежа</b>\n");
            s.append("━━━━━━━━━━━━━━━━━━━━");
            s.append("\n📦  <b>");
            let safe_name = escape_html(name.as_str());
            s.append(safe_name.as_str());
            s.append("</b>\n");
            push_amount_lines(&mut s, currency, p);
            s.append("Подтвердите для создания ссылки");
            assert(s@ =~= summary_text(name@, currency, p));
            r.push(
                Action::Send(
                    Outgoing {
                        text: s,
                        html: true,
                        keyboard: Some(confirm_keyboard()),
                        no_preview: false,
                    },
                ),
            );
            r.push(Action::Update(State::Confirm { name, currency, price: p }));
        },
        Some(p) if p > MAX_PRICE => {
            let mut s = String::from_str("⚠️ Сумма слишком большая (макс. ");
            push_decimal(&mut s, MAX_PRICE as u64);
            s.append("). Введите сумму:");
            r.push(send_plain(s));
        },
        _ => {
            r.push(send_plain(String::from_str("Неверная сумма. Введите целое число больше 0:")));
        },
    }
    assert(actions_view(r@) =~= receive_price_spec(opt_view(text), name@, currency));
    r
}

pub open spec fn back_to_start() -> Seq<ActionView> {
    seq![
        ActionView::Reset,
        with_keyboard(
            "Нажмите кнопку, чтобы создать новую ссылку на оплату."@,
            start_keyboard_spec(),
        ),
    ]
}

fn push_back_to_start(r: &mut Vec<Action>)
    ensures
        actions_view(final(r)@) == actions_view(old(r)@) + back_to_start(),
{
    r.push(Action::Reset);
    r.push(
        send_with_keyboard(
            String::from_str("Нажмите кнопку, чтобы создать новую ссылку на оплату."),
            start_keyboard(),
        ),
    );
    assert(actions_view(r@) =~= actions_view(old(r)@) + back_to_start());
}

pub open spec fn handle_confirm_callback_spec(
    data: Option<Seq<char>>,
    has_message: bool,
    name: Seq<char>,
    currency: Currency,
    price: u32,
) -> Seq<ActionView> {
    if !has_message {
        seq![ActionView::AnswerCallback]
    } else if data == Some("confirm"@) {
        seq![
            ActionView::AnswerCallback,
            ActionView::EditText("⏳ Генерация ссылки..."@),
            ActionView::CreatePaymentLink { name, currency, price },
        ]
    } else {
        seq![ActionView::AnswerCallback, ActionView::EditText("Отменено."@)] + back_to_start()
    }
}

/// A button press on the summary: "confirm" asks for the payment link, any
/// other button cancels. The dialogue goes back to its start either way, once
/// the link is there (see `finish_payment_link`).
pub fn handle_confirm_callback(
    data: Option<&str>,
    has_message: bool,
    name: String,
    currency: Currency,
    price: u32,
) -> (r: Vec<Action>)
    ensures
        actions_view(r@) == handle_confirm_callback_spec(
            opt_view(data),
            has_message,
            name@,
            currency,
            price,
        ),
{
    let mut r: Vec<Action> = Vec::new();
    r.push(Action::AnswerCallback);
    if !has_message {
        assert(actions_view(r@) =~= handle_confirm_callback_spec(
            opt_view(data),
            has_message,
            name@,
            currency,
            price,
        ));
        return r;
    }
    let confirmed = match data {
        Some(d) => str_eq(d, "confirm"),
        None => false,
    };
    if confirmed {
        r.push(Action::EditText(String::from_str("⏳ Генерация ссылки...")));
        r.push(Action::CreatePaymentLink { name, currency, price });
    } else {
        r.push(Action::EditText(String::from_str("Отменено.")));
        push_back_to_start(&mut r);
    }
    assert(actions_view(r@) =~= handle_confirm_callback_spec(
        opt_view(data),
        has_message,
        name@,
        currency,
        price,
    ));
    r
}

pub open spec fn finish_payment_link_spec(
    link: Result<Seq<char>, Seq<char>>,
    name: Seq<char>,
    currency: Currency,
    price: u32,
    author: AuthorView,
) -> Seq<ActionView> {
    match link {
        Ok(url) => seq![
            ActionView::Send(
                OutgoingView {
                    text: link_ready_text(name, currency, price, url),
                    html: true,
                    keyboard: None,
                    no_preview: true,
                },
            ),
            ActionView::NotifyChannel(
                OutgoingView {
                    text: channel_text(author, name, currency, price, url),
                    html: true,
                    keyboard: None,
                    no_preview: true,
                },
            ),
        ] + back_to_start(),
        Err(_) => seq![plain("❌ Не удалось создать ссылку. Попробуйте позже."@)] + back_to_start(),
    }
}

pub open spec fn link_view(link: &Result<String, String>) -> Result<Seq<char>, Seq<char>> {
    match link {
        Ok(u) => Ok(u@),
        Err(e) => Err(e@),
    }
}

/// What follows the payment service's answer: the link goes to the user and to
/// the notification channel, or the user learns that it failed; then the
/// dialogue starts over.
pub fn finish_payment_link(
    link: Result<String, String>,
    name: &str,
    currency: Currency,
    price: u32,
    author: &Author,
) -> (r: Vec<Action>)
    ensures
        actions_view(r@) == finish_payment_link_spec(
            link_view(&link),
            name@,
            currency,
            price,
            author@,
        ),
{
    let mut r: Vec<Action> = Vec::new();
    match &link {
        Ok(url) => {
            let safe_name = escape_html(name);
            let mut dm = String::from_str("<b>✅ Ссылка на оплату готова</b>\n");
            dm.append("━━━━━━━━━━━━━━━━━━━━");
            dm.append("\n📦  ");
            dm.append(safe_name.as_str());
            dm.append("\n");
            push_amount_lines(&mut dm, currency, price);
            dm.append("🔗  <a href=\"");
            dm.append(url.as_str());
            dm.append("\">Открыть страницу оплаты</a>");
            assert(dm@ =~= link_ready_text(name@, currency, price, url@));
            r.push(Action::Send(Outgoing { text: dm, html: true, keyboard: None, no_preview: true }));

            let mut author_name_s = author.first_name.clone();
            match &author.last_name {
                Some(last) => {
                    author_name_s.append(" ");
                    author_name_s.append(last.as_str());
                },
                None => {},
            }
            assert(author_name_s@ == author_name(author@.first_name, author@.last_name));
            let safe_author = escape_html(author_name_s.as_str());
            let mut ch = String::from_str("💳  <b><a href=\"tg://user?id=");
            push_decimal(&mut ch, author.id);
            ch.append("\">");
            ch.append(safe_author.as_str());
            ch.append("</a></b>\n");
            ch.append("━━━━━━━━━━━━━━━━━━━━");
            ch.append("\n📦  <b>");
            ch.append(safe_name.as_str());
            ch.append("</b>\n");
            push_amount_lines(&mut ch, currency, price);
            ch.append("🔗  <a href=\"");
            ch.append(url.as_str());
            ch.append("\">Ссылка на оплату</a>");
            assert(ch@ =~= channel_text(author@, name@, currency, price, url@));
            r.push(
                Action::NotifyChannel(Outgoing { text: ch, html: true, keyboard: None, no_preview: true }),
            );
        },
        Err(_) => {
            r.push(send_plain(String::from_str("❌ Не удалось создать ссылку. Попробуйте позже.")));
        },
    }
    push_back_to_start(&mut r);
    assert(actions_view(r@) =~= finish_payment_link_spec(
        link_view(&link),
        name@,
        currency,
        price,
        author@,
    ));
    r
}

// ---------------------------------------------------------------------------
// Routing
// ---------------------------------------------------------------------------

/// Which handler takes a text message, if any: messages without a sender, or
/// from users that are not allowed, are left alone, and so are messages in the
/// states that wait for a button.
pub open spec fn route_message_spec(
    allowed_users: Seq<u64>,
    from: Option<u64>,
    state: StateView,
    text: Option<Seq<char>>,
) -> Option<Seq<ActionView>> {
    match from {
        None => None,
        Some(user) => if !is_allowed_spec(user, allowed_users) {
            None
        } else {
            match state {
                StateView::Start => Some(handle_start_spec()),
                StateView::ReceiveName => Some(receive_name_spec(text)),
                StateView::ReceivePrice { name, currency } => Some(
                    receive_price_spec(text, name, currency),
                ),
                _ => None,
            }
        },
    }
}

/// Which handler takes a button press, if any: presses from users that are not
/// allowed are left alone, and so are presses in the states that wait for text.
pub open spec fn route_callback_spec(
    allowed_users: Seq<u64>,
    from: u64,
    state: StateView,
    data: Option<Seq<char>>,
    has_message: bool,
) -> Option<Seq<ActionView>> {
    if !is_allowed_spec(from, allowed_users) {
        None
    } else {
        match state {
            StateView::Start => Some(handle_start_callback_spec(data, has_message)),
            StateView::ReceiveCurrency { name } => Some(
                receive_currency_callback_spec(data, has_message, name),
            ),
            StateView::Confirm { name, currency, price } => Some(
                handle_confirm_callback_spec(data, has_message, name, currency, price),
            ),
            _ => None,
        }
    }
}

pub open spec fn opt_actions_view(r: Option<Vec<Action>>) -> Option<Seq<ActionView>> {
    match r {
        Some(v) => Some(actions_view(v@)),
        None => None,
    }
}

/// Hands a text message from user `from` (if the message has a sender) to the
/// handler of the dialogue's state; `None` when no handler takes it.
pub fn route_message(config: &BotConfig, from: Option<u64>, state: &State, text: Option<&str>) -> (r:
    Option<Vec<Action>>)
    ensures
        opt_actions_view(r) == route_message_spec(
            config.allowed_users@,
            from,
            state@,
            opt_view(text),
        ),
{
    let user = match from {
        Some(u) => u,
        None => return None,
    };
    if !is_allowed(user, config) {
        return None;
    }
    match state {
        State::Start => Some(handle_start()),
        State::ReceiveName => Some(receive_name(text)),
        State::ReceivePrice { name, currency } => Some(receive_price(text, name.clone(), *currency)),
        _ => None,
    }
}

/// Hands a button press from user `from` to the handler of the dialogue's
/// state; `None` when no handler takes it. `has_message` tells whether the
/// message that holds the button is still there.
pub fn route_callback(
    config: &BotConfig,
    from: u64,
    state: &State,
    data: Option<&str>,
    has_message: bool,
) -> (r: Option<Vec<Action>>)
    ensures
        opt_actions_view(r) == route_callback_spec(
            config.allowed_users@,
            from,
            state@,
            opt_view(data),
            has_message,
        ),
{
    if !is_allowed(from, config) {
        return None;
    }
    match state {
        State::Start => Some(handle_start_callback(data, has_message)),
        State::ReceiveCurrency { name } => Some(
            receive_currency_callback(data, has_message, name.clone()),
        ),
        State::Confirm { name, currency, price } => Some(
            handle_confirm_callback(data, has_message, name.clone(), *currency, *price),
        ),
        _ => None,
    }
}

// ---------------------------------------------------------------------------
// Laws
// ---------------------------------------------------------------------------

/// Every state that `actions` store is one that the dialogue may be in.
pub open spec fn updates_valid(actions: Seq<ActionView>) -> bool {
    forall|i: int|
        0 <= i < actions.len() ==> (#[trigger] actions[i] matches ActionView::Update(s) ==> s.wf())
}

/// A text message never takes the dialogue to a state whose name or price did
/// not pass validation.
pub proof fn messages_keep_dialogue_valid(
    allowed_users: Seq<u64>,
    from: Option<u64>,
    state: StateView,
    text: Option<Seq<char>>,
)
    requires
        state.wf(),
    ensures
        route_message_spec(allowed_users, from, state, text) matches Some(a) ==> updates_valid(a),
{
}

/// A button press never takes the dialogue to a state whose name or price did
/// not pass validation.
pub proof fn callbacks_keep_dialogue_valid(
    allowed_users: Seq<u64>,
    from: u64,
    state: StateView,
    data: Option<Seq<char>>,
    has_message: bool,
)
    requires
        state.wf(),
    ensures
        route_callback_spec(allowed_users, from, state, data, has_message) matches Some(a)
            ==> updates_valid(a),
{
}

/// With an empty whitelist every user may use the bot.
pub proof fn empty_whitelist_allows_everyone(user_id: u64, allowed_users: Seq<u64>)
    requires
        allowed_users.len() == 0,
    ensures
        is_allowed_spec(user_id, allowed_users),
{
}

/// The start button is the one that the start state waits for: pressing it
/// asks for a product name.
pub proof fn start_button_asks_for_name(has_message: bool)
    ensures
        handle_start_callback_spec(Some(start_keyboard_spec()[0][0].data), has_message).last()
            == ActionView::Update(StateView::ReceiveName),
{
}

/// Every currency has a button on the currency keyboard, and pressing it
/// (while a currency is expected) chooses that currency.
pub proof fn currency_buttons_choose_their_currency(c: Currency, name: Seq<char>, has_message: bool)
    ensures
        exists|i: int|
            0 <= i < currency_keyboard_spec()[0].len() && #[trigger] currency_keyboard_spec()[0][i].data
                == c.code_spec(),
        forall|i: int|
            0 <= i < currency_keyboard_spec()[0].len() ==> Currency::parse_spec(
                #[trigger] currency_keyboard_spec()[0][i].data,
            ) is Some,
        receive_currency_callback_spec(Some(c.code_spec()), has_message, name).last()
            == ActionView::Update(StateView::ReceivePrice { name, currency: c }),
{
    crate::models::currency_code_roundtrip(c);
    crate::models::currency_code_roundtrip(Currency::ILS);
    crate::models::currency_code_roundtrip(Currency::USD);
    crate::models::currency_code_roundtrip(Currency::EUR);
    let row = currency_keyboard_spec()[0];
    match c {
        Currency::ILS => assert(row[0].data == c.code_spec()),
        Currency::USD => assert(row[1].data == c.code_spec()),
        Currency::EUR => assert(row[2].data == c.code_spec()),
    }
}

/// On the summary, the confirm button asks for the payment link and the cancel
/// button ends the dialogue and shows the start button again.
pub proof fn confirm_buttons_do_what_they_say(name: Seq<char>, currency: Currency, price: u32)
    ensures
        handle_confirm_callback_spec(
            Some(confirm_keyboard_spec()[0][0].data),
            true,
            name,
            currency,
            price,
        ).last() == (ActionView::CreatePaymentLink { name, currency, price }),
        ({
            let a = handle_confirm_callback_spec(
                Some(confirm_keyboard_spec()[0][1].data),
                true,
                name,
                currency,
                price,
            );
            a.subrange(a.len() - 2, a.len() as int) == back_to_start()
        }),
{
    reveal_strlit("confirm");
    reveal_strlit("cancel");
    assert(confirm_keyboard_spec()[0][1].data != "confirm"@) by {
        assert("cancel"@[1] != "confirm"@[1]);
    }
    let a = handle_confirm_callback_spec(
        Some(confirm_keyboard_spec()[0][1].data),
        true,
        name,
        currency,
        price,
    );
    assert(a.subrange(a.len() - 2, a.len() as int) =~= back_to_start());
}

/// Whatever the payment service answers, the dialogue then starts over with
/// the start button.
pub proof fn payment_link_outcome_restarts_dialogue(
    link: Result<Seq<char>, Seq<char>>,
    name: Seq<char>,
    currency: Currency,
    price: u32,
    author: AuthorView,
)
    ensures
        ({
            let a = finish_payment_link_spec(link, name, currency, price, author);
            a.len() >= 3 && a.subrange(a.len() - 2, a.len() as int) == back_to_start()
        }),
{
    let a = finish_payment_link_spec(link, name, currency, price, author);
    assert(a.subrange(a.len() - 2, a.len() as int) =~= back_to_start());
}

/// Each currency button shows the currency's flag and code.
pub proof fn currency_buttons_show_flag_and_code()
    ensures
        currency_keyboard_spec()[0][0].text == Currency::ILS.flag_spec() + " "@ + Currency::ILS.code_spec(),
        currency_keyboard_spec()[0][1].text == Currency::USD.flag_spec() + " "@ + Currency::USD.code_spec(),
        currency_keyboard_spec()[0][2].text == Currency::EUR.flag_spec() + " "@ + Currency::EUR.code_spec(),
{
    reveal_strlit("🇮🇱 ILS");
    reveal_strlit("🇺🇸 USD");
    reveal_strlit("🇪🇺 EUR");
    reveal_strlit("🇮🇱");
    reveal_strlit("🇺🇸");
    reveal_strlit("🇪🇺");
    reveal_strlit(" ");
    reveal_strlit("ILS");
    reveal_strlit("USD");
    reveal_strlit("EUR");
    assert(currency_keyboard_spec()[0][0].text =~= Currency::ILS.flag_spec() + " "@
        + Currency::ILS.code_spec());
    assert(currency_keyboard_spec()[0][1].text =~= Currency::USD.flag_spec() + " "@
        + Currency::USD.code_spec());
    assert(currency_keyboard_spec()[0][2].text =~= Currency::EUR.flag_spec() + " "@
        + Currency::EUR.code_spec());
}

/// The link that a confirmation asks for is for the very name, currency and
/// price that the summary showed.
pub proof fn confirmed_link_matches_summary(
    allowed_users: Seq<u64>,
    user: u64,
    text: Option<Seq<char>>,
    name: Seq<char>,
    currency: Currency,
)
    requires
        is_allowed_spec(user, allowed_users),
    ensures
        match parse_u32_spec(trim_spec(text_or_empty(text))) {
            Some(p) => valid_price(p) ==> {
                let a = receive_price_spec(text, name, currency);
                &&& a[0] matches ActionView::Send(o) && o.text == summary_text(name, currency, p)
                &&& a[1] == ActionView::Update(StateView::Confirm { name, currency, price: p })
                &&& route_callback_spec(
                    allowed_users,
                    user,
                    StateView::Confirm { name, currency, price: p },
                    Some(confirm_keyboard_spec()[0][0].data),
                    true,
                ) matches Some(b) && b.last() == (ActionView::CreatePaymentLink {
                    name,
                    currency,
                    price: p,
                })
            },
            None => true,
        },
{
}

proof fn lemma_middle(a: Seq<char>, x: Seq<char>, y: Seq<char>)
    ensures
        (a + x + y).subrange(a.len() as int, (a.len() + x.len()) as int) == x,
{
    assert((a + x + y).subrange(a.len() as int, (a.len() + x.len()) as int) =~= x);
}

/// Whether `part` occurs in `s`.
pub open spec fn occurs_in(part: Seq<char>, s: Seq<char>) -> bool {
    exists|i: int| 0 <= i <= s.len() - part.len() && #[trigger] s.subrange(i, i + part.len()) == part
}

/// How the currency and the amount are shown: the flag and the code, then the
/// sign and the decimal price in bold.
pub open spec fn shown_amount(c: Currency, price: u32) -> Seq<char> {
    c.flag_spec() + "  "@ + c.code_spec() + "\n💰  <b>"@ + c.symbol_spec() + decimal(price as nat)
        + "</b>\n"@
}

/// The summary, the link message and the channel notification all show the
/// currency that was chosen and the price that was typed.
pub proof fn payment_messages_show_currency_and_price(
    name: Seq<char>,
    c: Currency,
    price: u32,
    url: Seq<char>,
    author: AuthorView,
)
    ensures
        occurs_in(shown_amount(c, price), summary_text(name, c, price)),
        occurs_in(shown_amount(c, price), link_ready_text(name, c, price, url)),
        occurs_in(shown_amount(c, price), channel_text(author, name, c, price, url)),
{
    let x = shown_amount(c, price);
    let tail = rule() + "\n"@;
    assert(amount_lines(c, price) =~= x + tail);

    let a1 = "<b>📋 Сводка платежа</b>\n"@ + rule() + "\n📦  <b>"@ + escape_html_spec(name) + "</b>\n"@;
    let y1 = tail + "Подтвердите для создания ссылки"@;
    assert(summary_text(name, c, price) =~= a1 + x + y1);
    lemma_middle(a1, x, y1);
    assert(summary_text(name, c, price).subrange(a1.len() as int, (a1.len() + x.len()) as int) == x);

    let a2 = "<b>✅ Ссылка на оплату готова</b>\n"@ + rule() + "\n📦  "@ + escape_html_spec(name) + "\n"@;
    let y2 = tail + "🔗  <a href=\""@ + url + "\">Открыть страницу оплаты</a>"@;
    assert(link_ready_text(name, c, price, url) =~= a2 + x + y2);
    lemma_middle(a2, x, y2);
    assert(link_ready_text(name, c, price, url).subrange(a2.len() as int, (a2.len() + x.len()) as int) == x);

    let a3 = "💳  <b><a href=\"tg://user?id="@ + decimal(author.id as nat) + "\">"@ + escape_html_spec(
        author_name(author.first_name, author.last_name),
    ) + "</a></b>\n"@ + rule() + "\n📦  <b>"@ + escape_html_spec(name) + "</b>\n"@;
    let y3 = tail + "🔗  <a href=\""@ + url + "\">Ссылка на оплату</a>"@;
    assert(channel_text(author, name, c, price, url) =~= a3 + x + y3);
    lemma_middle(a3, x, y3);
    assert(channel_text(author, name, c, price, url).subrange(a3.len() as int, (a3.len() + x.len()) as int)
        == x);
}

/// The channel notification links the author's profile by the author's full
/// Telegram id: the text between `tg://user?id=` and the closing quote reads
/// back as exactly that id.
pub proof fn channel_links_author_by_full_id(
    author: AuthorView,
    name: Seq<char>,
    c: Currency,
    price: u32,
    url: Seq<char>,
)
    ensures
        exists|d: Seq<char>|
            #[trigger] crate::text::parse_u64_spec(d) == Some(author.id) && channel_text(
                author,
                name,
                c,
                price,
                url,
            ).take(("💳  <b><a href=\"tg://user?id="@ + d + "\">"@).len() as int)
                == "💳  <b><a href=\"tg://user?id="@ + d + "\">"@,
{
    let d = decimal(author.id as nat);
    let head = "💳  <b><a href=\"tg://user?id="@ + d + "\">"@;
    let rest = escape_html_spec(author_name(author.first_name, author.last_name)) + "</a></b>\n"@
        + rule() + "\n📦  <b>"@ + escape_html_spec(name) + "</b>\n"@ + amount_lines(c, price)
        + "🔗  <a href=\""@ + url + "\">Ссылка на оплату</a>"@;
    assert(channel_text(author, name, c, price, url) =~= head + rest);
    assert((head + rest).take(head.len() as int) =~= head);
    crate::text::parse_u64_reads_decimal(author.id);
}

/// A listed user is always allowed; with a non-empty whitelist, only listed
/// users are.
pub proof fn whitelist_admits_exactly_listed_users(user_id: u64, allowed_users: Seq<u64>)
    ensures
        allowed_users.contains(user_id) ==> is_allowed_spec(user_id, allowed_users),
        allowed_users.len() > 0 ==> (is_allowed_spec(user_id, allowed_users)
            <==> allowed_users.contains(user_id)),
{
}

proof fn lemma_printable_is_ascii_text_char(c: char)
    requires
        0x20 <= (c as u32) <= 0x7e,
    ensures
        crate::text::is_ascii_text_char(c),
{
    if (c as u32) == 0x20 {
        assert(' ' <= c <= ' ');
    }
}

/// A product name is accepted exactly when, once trimmed, it is not empty, is
/// at most 100 characters long, and every character is printable ASCII (a
/// letter, digit, punctuation sign or space); the trimmed text is then the
/// name that the dialogue keeps.
pub proof fn receive_name_accepts_exactly_english_names(text: Seq<char>)
    ensures
        ({
            let t = trim_spec(text);
            let a = receive_name_spec(Some(text));
            (0 < t.len() <= 100 && forall|i: int|
                0 <= i < t.len() ==> 0x20 <= (#[trigger] t[i]) as u32 <= 0x7e) <==> a.last()
                == ActionView::Update(StateView::ReceiveCurrency { name: t })
        }),
{
    let t = trim_spec(text);
    let printable = forall|i: int| 0 <= i < t.len() ==> 0x20 <= (#[trigger] t[i]) as u32 <= 0x7e;
    assert(printable <==> is_ascii_text_spec(t)) by {
        if printable {
            assert forall|i: int| 0 <= i < t.len() implies crate::text::is_ascii_text_char(
                #[trigger] t[i],
            ) by {
                lemma_printable_is_ascii_text_char(t[i]);
            }
        }
        if is_ascii_text_spec(t) {
            assert forall|i: int| 0 <= i < t.len() implies 0x20 <= (#[trigger] t[i]) as u32
                <= 0x7e by {
                assert(crate::text::is_ascii_text_char(t[i]));
            }
        }
    }
    if is_ascii_text_spec(t) {
        lemma_ascii_text_is_ascii(t);
    }
}

/// A price is accepted exactly when the trimmed text is a whole number from 1
/// to 1,000,000, and the dialogue then keeps that number.
pub proof fn receive_price_accepts_exactly_prices_in_range(
    text: Seq<char>,
    name: Seq<char>,
    c: Currency,
    p: u32,
)
    ensures
        receive_price_spec(Some(text), name, c).last() == ActionView::Update(
            StateView::Confirm { name, currency: c, price: p },
        ) <==> (crate::text::parse_u32_spec(trim_spec(text)) == Some(p) && 1 <= p <= 1_000_000),
{
}

/// The summary, the link message and the channel notification all show the
/// product name (escaped), and the last two link to the payment page.
pub proof fn payment_messages_show_name_and_link(
    name: Seq<char>,
    c: Currency,
    price: u32,
    url: Seq<char>,
    author: AuthorView,
)
    ensures
        occurs_in(escape_html_spec(name), summary_text(name, c, price)),
        occurs_in(escape_html_spec(name), link_ready_text(name, c, price, url)),
        occurs_in(escape_html_spec(name), channel_text(author, name, c, price, url)),
        occurs_in("<a href=\""@ + url + "\">"@, link_ready_text(name, c, price, url)),
        occurs_in("<a href=\""@ + url + "\">"@, channel_text(author, name, c, price, url)),
{
    let e = escape_html_spec(name);
    let link = "<a href=\""@ + url + "\">"@;
    let amount = amount_lines(c, price);

    let a1 = "<b>📋 Сводка платежа</b>\n"@ + rule() + "\n📦  <b>"@;
    let y1 = "</b>\n"@ + amount + "Подтвердите для создания ссылки"@;
    assert(summary_text(name, c, price) =~= a1 + e + y1);
    lemma_middle(a1, e, y1);
    assert(summary_text(name, c, price).subrange(a1.len() as int, (a1.len() + e.len()) as int) == e);

    let a2 = "<b>✅ Ссылка на оплату готова</b>\n"@ + rule() + "\n📦  "@;
    let y2 = "\n"@ + amount + "🔗  <a href=\""@ + url + "\">Открыть страницу оплаты</a>"@;
    assert(link_ready_text(name, c, price, url) =~= a2 + e + y2);
    lemma_middle(a2, e, y2);
    assert(link_ready_text(name, c, price, url).subrange(a2.len() as int, (a2.len() + e.len()) as int)
        == e);

    let a3 = "💳  <b><a href=\"tg://user?id="@ + decimal(author.id as nat) + "\">"@ + escape_html_spec(
        author_name(author.first_name, author.last_name),
    ) + "</a></b>\n"@ + rule() + "\n📦  <b>"@;
    let y3 = "</b>\n"@ + amount + "🔗  <a href=\""@ + url + "\">Ссылка на оплату</a>"@;
    assert(channel_text(author, name, c, price, url) =~= a3 + e + y3);
    lemma_middle(a3, e, y3);
    assert(channel_text(author, name, c, price, url).subrange(a3.len() as int, (a3.len() + e.len()) as int)
        == e);

    reveal_strlit("🔗  <a href=\"");
    reveal_strlit("<a href=\"");
    reveal_strlit("\">Открыть страницу оплаты</a>");
    reveal_strlit("\">Ссылка на оплату</a>");
    reveal_strlit("\">");
    let b2 = "<b>✅ Ссылка на оплату готова</b>\n"@ + rule() + "\n📦  "@ + e + "\n"@ + amount + "🔗  "@;
    let z2 = "Открыть страницу оплаты</a>"@;
    reveal_strlit("🔗  ");
    reveal_strlit("Открыть страницу оплаты</a>");
    reveal_strlit("Ссылка на оплату</a>");
    assert(link_ready_text(name, c, price, url) =~= b2 + link + z2);
    lemma_middle(b2, link, z2);
    assert(link_ready_text(name, c, price, url).subrange(b2.len() as int, (b2.len() + link.len()) as int)
        == link);

    let b3 = "💳  <b><a href=\"tg://user?id="@ + decimal(author.id as nat) + "\">"@ + escape_html_spec(
        author_name(author.first_name, author.last_name),
    ) + "</a></b>\n"@ + rule() + "\n📦  <b>"@ + e + "</b>\n"@ + amount + "🔗  "@;
    let z3 = "Ссылка на оплату</a>"@;
    assert(channel_text(author, name, c, price, url) =~= b3 + link + z3);
    lemma_middle(b3, link, z3);
    assert(channel_text(author, name, c, price, url).subrange(b3.len() as int, (b3.len() + link.len()) as int)
        == link);
}

/// The channel notification shows the author's first name, followed by a
/// space and the last name when there is one, escaped.
pub proof fn channel_shows_author_name(
    author: AuthorView,
    name: Seq<char>,
    c: Currency,
    price: u32,
    url: Seq<char>,
)
    ensures
        occurs_in(
            escape_html_spec(
                match author.last_name {
                    Some(l) => author.first_name + " "@ + l,
                    None => author.first_name,
                },
            ),
            channel_text(author, name, c, price, url),
        ),
{
    let w = escape_html_spec(
        match author.last_name {
            Some(l) => author.first_name + " "@ + l,
            None => author.first_name,
        },
    );
    let a = "💳  <b><a href=\"tg://user?id="@ + decimal(author.id as nat) + "\">"@;
    let y = "</a></b>\n"@ + rule() + "\n📦  <b>"@ + escape_html_spec(name) + "</b>\n"@ + amount_lines(
        c,
        price,
    ) + "🔗  <a href=\""@ + url + "\">Ссылка на оплату</a>"@;
    assert(channel_text(author, name, c, price, url) =~= a + w + y);
    lemma_middle(a, w, y);
    assert(channel_text(author, name, c, price, url).subrange(a.len() as int, (a.len() + w.len()) as int)
        == w);
}

/// Choosing a currency by button keeps the name, stores the currency that the
/// button names, and (when the message is there) shows the button's data as
/// the chosen currency.
pub proof fn chosen_currency_is_the_pressed_one(d: Seq<char>, name: Seq<char>)
    ensures
        Currency::parse_spec(d) matches Some(c) ==> {
            let a = receive_currency_callback_spec(Some(d), true, name);
            &&& c.code_spec() == d
            &&& a[1] == ActionView::EditText("Валюта: "@ + d)
            &&& a.last() == ActionView::Update(StateView::ReceivePrice { name, currency: c })
        },
{
}

/// The channel hears of a payment link only when the link was created, and
/// then once; the user gets the link in a message without link preview.
pub proof fn channel_notified_only_for_created_links(
    link: Result<Seq<char>, Seq<char>>,
    name: Seq<char>,
    c: Currency,
    price: u32,
    author: AuthorView,
)
    ensures
        ({
            let a = finish_payment_link_spec(link, name, c, price, author);
            match link {
                Ok(url) => {
                    &&& a[0] matches ActionView::Send(o) && o.no_preview && o.html && occurs_in(
                        "<a href=\""@ + url + "\">"@,
                        o.text,
                    )
                    &&& a[1] is NotifyChannel
                    &&& forall|i: int| 0 <= i < a.len() && i != 1 ==> !(#[trigger] a[i] is NotifyChannel)
                },
                Err(_) => forall|i: int| 0 <= i < a.len() ==> !(#[trigger] a[i] is NotifyChannel),
            }
        }),
{
    if let Ok(url) = link {
        payment_messages_show_name_and_link(name, c, price, url, author);
    }
}

} // verus!
