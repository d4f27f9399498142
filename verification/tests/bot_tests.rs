use isracard_payment::bot::{
    confirm_keyboard, currency_keyboard, finish_payment_link, handle_confirm_callback,
    handle_start, handle_start_callback, is_allowed, receive_currency_callback, receive_name,
    receive_price, route_callback, route_message, start_keyboard, Action, Author, BotConfig, Button,
    Keyboard, Outgoing, State,
};
use isracard_payment::models::Currency;

const RULE: &str = "━━━━━━━━━━━━━━━━━━━━";

fn config(users: Vec<u64>) -> BotConfig {
    BotConfig { allowed_users: users, channel_chat_id: -100 }
}

fn plain(text: &str) -> Action {
    Action::Send(Outgoing { text: text.to_string(), html: false, keyboard: None, no_preview: false })
}

fn with_keyboard(text: &str, k: Keyboard) -> Action {
    Action::Send(Outgoing { text: text.to_string(), html: false, keyboard: Some(k), no_preview: false })
}

fn btn(text: &str, data: &str) -> Button {
    Button { text: text.to_string(), data: data.to_string() }
}

fn back_to_start() -> Vec<Action> {
    vec![
        Action::Reset,
        with_keyboard("Нажмите кнопку, чтобы создать новую ссылку на оплату.", start_keyboard()),
    ]
}

#[test]
fn whitelist() {
    assert!(is_allowed(5, &config(vec![])));
    assert!(is_allowed(5, &config(vec![1, 5])));
    assert!(!is_allowed(6, &config(vec![1, 5])));
}

#[test]
fn keyboards() {
    assert_eq!(start_keyboard().rows, vec![vec![btn("💳 Создать ссылку на оплату", "create_link")]]);
    assert_eq!(
        currency_keyboard().rows,
        vec![vec![btn("🇮🇱 ILS", "ILS"), btn("🇺🇸 USD", "USD"), btn("🇪🇺 EUR", "EUR")]]
    );
    assert_eq!(
        confirm_keyboard().rows,
        vec![vec![btn("✅ Подтвердить", "confirm"), btn("❌ Отмена", "cancel")]]
    );
}

#[test]
fn currency_buttons_name_currencies() {
    for b in &currency_keyboard().rows[0] {
        assert!(Currency::from_str(&b.data).is_ok());
    }
}

#[test]
fn default_state_is_start() {
    assert_eq!(State::default(), State::Start);
}

#[test]
fn start_greets() {
    assert_eq!(
        handle_start(),
        vec![with_keyboard(
            "Добро пожаловать! Нажмите кнопку, чтобы создать ссылку на оплату.",
            start_keyboard()
        )]
    );
}

#[test]
fn start_button_asks_for_name() {
    assert_eq!(
        handle_start_callback(Some("create_link"), true),
        vec![
            Action::AnswerCallback,
            plain("Введите название продукта (только английские буквы):"),
            Action::Update(State::ReceiveName),
        ]
    );
    assert_eq!(
        handle_start_callback(Some("create_link"), false),
        vec![Action::AnswerCallback, Action::Update(State::ReceiveName)]
    );
    assert_eq!(handle_start_callback(Some("confirm"), true), vec![Action::AnswerCallback]);
    assert_eq!(handle_start_callback(None, true), vec![Action::AnswerCallback]);
}

#[test]
fn name_is_trimmed_and_accepted() {
    assert_eq!(
        receive_name(Some("  Coffee beans \n")),
        vec![
            with_keyboard("Выберите валюту:", currency_keyboard()),
            Action::Update(State::ReceiveCurrency { name: "Coffee beans".to_string() }),
        ]
    );
}

#[test]
fn empty_name_is_refused() {
    let expected = vec![plain("Название не может быть пустым. Введите название продукта:")];
    assert_eq!(receive_name(None), expected);
    assert_eq!(receive_name(Some("   ")), expected);
}

#[test]
fn non_english_name_is_refused() {
    assert_eq!(
        receive_name(Some("Кофе")),
        vec![plain(
            "⚠️ Название должно содержать только английские буквы.\nПожалуйста, введите название на английском:"
        )]
    );
}

#[test]
fn long_name_is_refused() {
    let long = "a".repeat(101);
    assert_eq!(
        receive_name(Some(&long)),
        vec![plain("⚠️ Название слишком длинное (макс. 100 символов). Попробуйте короче:")]
    );
    let max = "b".repeat(100);
    assert_eq!(receive_name(Some(&max))[1], Action::Update(State::ReceiveCurrency { name: max.clone() }));
}

#[test]
fn currency_button_chooses_currency() {
    assert_eq!(
        receive_currency_callback(Some("USD"), true, "Coffee".to_string()),
        vec![
            Action::AnswerCallback,
            Action::EditText("Валюта: USD".to_string()),
            plain("Введите сумму (целое число):"),
            Action::Update(State::ReceivePrice { name: "Coffee".to_string(), currency: Currency::USD }),
        ]
    );
    assert_eq!(
        receive_currency_callback(Some("EUR"), false, "Coffee".to_string()),
        vec![
            Action::AnswerCallback,
            Action::Update(State::ReceivePrice { name: "Coffee".to_string(), currency: Currency::EUR }),
        ]
    );
    assert_eq!(receive_currency_callback(None, true, "Coffee".to_string()), vec![Action::AnswerCallback]);
}

#[test]
fn unknown_currency_button_fails() {
    assert_eq!(
        receive_currency_callback(Some("GBP"), true, "Coffee".to_string()),
        vec![Action::AnswerCallback, Action::Fail("Unknown currency: GBP".to_string())]
    );
}

#[test]
fn price_leads_to_summary() {
    let expected_text = format!(
        "<b>📋 Сводка платежа</b>\n{RULE}\n📦  <b>Tea &amp; &lt;cake&gt;</b>\n🇺🇸  USD\n💰  <b>$150</b>\n{RULE}\nПодтвердите для создания ссылки"
    );
    assert_eq!(
        receive_price(Some(" 150 "), "Tea & <cake>".to_string(), Currency::USD),
        vec![
            Action::Send(Outgoing {
                text: expected_text,
                html: true,
                keyboard: Some(confirm_keyboard()),
                no_preview: false,
            }),
            Action::Update(State::Confirm {
                name: "Tea & <cake>".to_string(),
                currency: Currency::USD,
                price: 150,
            }),
        ]
    );
}

#[test]
fn price_limits() {
    let too_high = vec![plain("⚠️ Сумма слишком большая (макс. 1000000). Введите сумму:")];
    let invalid = vec![plain("Неверная сумма. Введите целое число больше 0:")];
    assert_eq!(receive_price(Some("1000001"), "X".to_string(), Currency::ILS), too_high);
    assert_eq!(receive_price(Some("0"), "X".to_string(), Currency::ILS), invalid);
    assert_eq!(receive_price(Some("-5"), "X".to_string(), Currency::ILS), invalid);
    assert_eq!(receive_price(Some("12.5"), "X".to_string(), Currency::ILS), invalid);
    assert_eq!(receive_price(Some("abc"), "X".to_string(), Currency::ILS), invalid);
    assert_eq!(receive_price(None, "X".to_string(), Currency::ILS), invalid);
    // Too large for a u32: not a number at all for the bot.
    assert_eq!(receive_price(Some("99999999999"), "X".to_string(), Currency::ILS), invalid);
    let ok = receive_price(Some("1000000"), "X".to_string(), Currency::ILS);
    assert_eq!(
        ok[1],
        Action::Update(State::Confirm { name: "X".to_string(), currency: Currency::ILS, price: 1_000_000 })
    );
    let plus = receive_price(Some("+0042"), "X".to_string(), Currency::EUR);
    assert_eq!(
        plus[1],
        Action::Update(State::Confirm { name: "X".to_string(), currency: Currency::EUR, price: 42 })
    );
}

#[test]
fn confirm_asks_for_link() {
    assert_eq!(
        handle_confirm_callback(Some("confirm"), true, "Tea".to_string(), Currency::ILS, 20),
        vec![
            Action::AnswerCallback,
            Action::EditText("⏳ Генерация ссылки...".to_string()),
            Action::CreatePaymentLink { name: "Tea".to_string(), currency: Currency::ILS, price: 20 },
        ]
    );
}

#[test]
fn cancel_restarts() {
    let mut expected = vec![Action::AnswerCallback, Action::EditText("Отменено.".to_string())];
    expected.extend(back_to_start());
    assert_eq!(handle_confirm_callback(Some("cancel"), true, "Tea".to_string(), Currency::ILS, 20), expected);
    assert_eq!(handle_confirm_callback(None, true, "Tea".to_string(), Currency::ILS, 20), expected);
}

#[test]
fn confirm_without_message_only_answers() {
    assert_eq!(
        handle_confirm_callback(Some("confirm"), false, "Tea".to_string(), Currency::ILS, 20),
        vec![Action::AnswerCallback]
    );
}

#[test]
fn link_goes_to_user_and_channel() {
    let author = Author { id: 12345, first_name: "Ann".to_string(), last_name: Some("<Lee>".to_string()) };
    let r = finish_payment_link(
        Ok("https://pay.example/x".to_string()),
        "Tea & cake",
        Currency::EUR,
        99,
        &author,
    );
    let dm = format!(
        "<b>✅ Ссылка на оплату готова</b>\n{RULE}\n📦  Tea &amp; cake\n🇪🇺  EUR\n💰  <b>€99</b>\n{RULE}\n🔗  <a href=\"https://pay.example/x\">Открыть страницу оплаты</a>"
    );
    let channel = format!(
        "💳  <b><a href=\"tg://user?id=12345\">Ann &lt;Lee&gt;</a></b>\n{RULE}\n📦  <b>Tea &amp; cake</b>\n🇪🇺  EUR\n💰  <b>€99</b>\n{RULE}\n🔗  <a href=\"https://pay.example/x\">Ссылка на оплату</a>"
    );
    let mut expected = vec![
        Action::Send(Outgoing { text: dm, html: true, keyboard: None, no_preview: true }),
        Action::NotifyChannel(Outgoing { text: channel, html: true, keyboard: None, no_preview: true }),
    ];
    expected.extend(back_to_start());
    assert_eq!(r, expected);
}

#[test]
fn author_without_last_name() {
    let author = Author { id: 7, first_name: "Bob".to_string(), last_name: None };
    let r = finish_payment_link(Ok("u".to_string()), "N", Currency::ILS, 1, &author);
    match &r[1] {
        Action::NotifyChannel(o) => assert!(o.text.starts_with("💳  <b><a href=\"tg://user?id=7\">Bob</a></b>\n")),
        other => panic!("unexpected {:?}", other),
    }
}

#[test]
fn failed_link_is_reported() {
    let author = Author { id: 7, first_name: "Bob".to_string(), last_name: None };
    let mut expected = vec![plain("❌ Не удалось создать ссылку. Попробуйте позже.")];
    expected.extend(back_to_start());
    assert_eq!(
        finish_payment_link(Err("Sales failed".to_string()), "N", Currency::ILS, 1, &author),
        expected
    );
}

#[test]
fn routing_of_messages() {
    let open = config(vec![]);
    assert_eq!(route_message(&open, None, &State::Start, Some("hi")), None);
    assert_eq!(route_message(&config(vec![1]), Some(2), &State::Start, Some("hi")), None);
    assert_eq!(route_message(&open, Some(2), &State::Start, Some("hi")), Some(handle_start()));
    assert_eq!(route_message(&open, Some(2), &State::ReceiveName, Some("Tea")), Some(receive_name(Some("Tea"))));
    assert_eq!(
        route_message(&open, Some(2), &State::ReceiveCurrency { name: "Tea".to_string() }, Some("x")),
        None
    );
    assert_eq!(
        route_message(
            &open,
            Some(2),
            &State::Confirm { name: "Tea".to_string(), currency: Currency::USD, price: 3 },
            Some("x")
        ),
        None
    );
}

#[test]
fn routing_of_buttons() {
    let open = config(vec![]);
    assert_eq!(route_callback(&config(vec![1]), 2, &State::Start, Some("create_link"), true), None);
    assert_eq!(route_callback(&open, 2, &State::ReceiveName, Some("USD"), true), None);
    assert_eq!(
        route_callback(&open, 2, &State::Start, Some("create_link"), true),
        Some(handle_start_callback(Some("create_link"), true))
    );
}

#[test]
fn whole_dialogue() {
    let cfg = config(vec![42]);
    let mut state = State::default();
    let mut last = Vec::new();
    let steps: Vec<(bool, &str)> = vec![
        (true, "/start"),
        (false, "create_link"),
        (true, " Coffee "),
        (false, "ILS"),
        (true, "250"),
        (false, "confirm"),
    ];
    for (is_message, payload) in steps {
        let actions = if is_message {
            route_message(&cfg, Some(42), &state, Some(payload))
        } else {
            route_callback(&cfg, 42, &state, Some(payload), true)
        }
        .expect("handled");
        for a in &actions {
            if let Action::Update(s) = a {
                state = s.clone();
            }
        }
        last = actions;
    }
    assert_eq!(state, State::Confirm { name: "Coffee".to_string(), currency: Currency::ILS, price: 250 });
    assert_eq!(
        last.last(),
        Some(&Action::CreatePaymentLink { name: "Coffee".to_string(), currency: Currency::ILS, price: 250 })
    );
}
