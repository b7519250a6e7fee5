use playwright::browser::{Browser, NewContextBuilder};
use playwright::codec::{IncomingMessage, ResponseOutcome, ErrorPayload};
use playwright::connection::{Connection, DispatchOutcome, Error};
use playwright::json::{to_bytes, JsonValue};
use playwright::page::{read_navigation_result, read_screenshot_result, read_string_result, Page};
use playwright::schema::{needs_builder, ArgShape};
use playwright::types::{
    ColorScheme, DocumentLoadState, ElementState, Header, HttpCredentials, KeyboardModifier,
    MouseButton, ProxySettings, SameSite, ScreenshotType, Viewport,
};

fn obj(fields: Vec<(&str, JsonValue)>) -> JsonValue {
    JsonValue::Obj(fields.into_iter().map(|(k, v)| (String::from(k), v)).collect())
}

fn s(x: &str) -> JsonValue {
    JsonValue::Str(String::from(x))
}

fn conn_with_page() -> Connection {
    let mut conn = Connection::new();
    let create = |parent: &str, ty: &str, guid: &str| IncomingMessage::Event {
        guid: String::from(parent),
        method: String::from("__create__"),
        params: obj(vec![
            ("type", s(ty)),
            ("guid", s(guid)),
            ("initializer", obj(vec![])),
        ]),
    };
    conn.dispatch(create("", "Page", "page@1"));
    conn.dispatch(create("page@1", "Frame", "frame@1"));
    conn
}

#[test]
fn screenshot_builder_params() {
    let mut page = Page::new(String::from("page@1"), String::from("frame@1"));
    let params = page.screenshot_builder().quality(80).full_page(true).params();
    assert_eq!(to_bytes(&params), br#"{"quality":80,"fullPage":true}"#.to_vec());
}

#[test]
fn screenshot_builder_sends_request() {
    let mut conn = conn_with_page();
    let mut page = Page::new(String::from("page@1"), String::from("frame@1"));
    let req = page
        .screenshot_builder()
        .quality(80)
        .full_page(true)
        .screenshot(&mut conn)
        .unwrap();
    assert_eq!(req.method, "screenshot");
    assert_eq!(req.guid, "page@1");
    assert_eq!(to_bytes(&req.params), br#"{"quality":80,"fullPage":true}"#.to_vec());
}

#[test]
fn screenshot_type_set_and_cleared() {
    let mut page = Page::new(String::from("page@1"), String::from("frame@1"));
    let with_type = page.screenshot_builder().screenshot_type(ScreenshotType::Jpeg);
    assert_eq!(to_bytes(&with_type.params()), br#"{"type":"jpeg"}"#.to_vec());
    let cleared = page
        .screenshot_builder()
        .screenshot_type(ScreenshotType::Png)
        .clear_type();
    assert_eq!(to_bytes(&cleared.params()), b"{}".to_vec());
}

#[test]
fn goto_builder_params() {
    let mut conn = conn_with_page();
    let mut page = Page::new(String::from("page@1"), String::from("frame@1"));
    let req = page
        .goto_builder("https://example/")
        .goto(&mut conn)
        .unwrap();
    assert_eq!(req.method, "goto");
    assert_eq!(req.guid, "frame@1");
    assert_eq!(to_bytes(&req.params), br#"{"url":"https://example/"}"#.to_vec());
}

#[test]
fn goto_builder_wait_until() {
    let mut page = Page::new(String::from("page@1"), String::from("frame@1"));
    let params = page
        .goto_builder("https://example/")
        .wait_until(DocumentLoadState::NetworkIdle)
        .params();
    assert_eq!(
        to_bytes(&params),
        br#"{"url":"https://example/","waitUntil":"networkidle"}"#.to_vec()
    );
}

#[test]
fn click_builder_params() {
    let mut page = Page::new(String::from("page@1"), String::from("frame@1"));
    let params = page
        .click_builder("a#link")
        .button(MouseButton::Right)
        .click_count(2)
        .params();
    assert_eq!(
        to_bytes(&params),
        br#"{"selector":"a#link","button":"right","clickCount":2}"#.to_vec()
    );
}

#[test]
fn fill_and_press_builders() {
    let mut page = Page::new(String::from("page@1"), String::from("frame@1"));
    let fill = page.fill_builder("input", "words").params();
    assert_eq!(to_bytes(&fill), br#"{"selector":"input","value":"words"}"#.to_vec());
    let press = page.press_builder("input", "Enter").no_wait_after(true).params();
    assert_eq!(
        to_bytes(&press),
        br#"{"selector":"input","key":"Enter","noWaitAfter":true}"#.to_vec()
    );
    let typed = page.type_builer("input", "abc").params();
    assert_eq!(to_bytes(&typed), br#"{"selector":"input","text":"abc"}"#.to_vec());
}

#[test]
fn navigation_and_content_builders() {
    let mut page = Page::new(String::from("page@1"), String::from("frame@1"));
    let reload = page.reload_builder().wait_until(DocumentLoadState::Load).params();
    assert_eq!(to_bytes(&reload), br#"{"waitUntil":"load"}"#.to_vec());
    assert_eq!(to_bytes(&page.go_back_builder().params()), b"{}".to_vec());
    assert_eq!(to_bytes(&page.go_forward_builder().params()), b"{}".to_vec());
    let content = page
        .set_content_builder("<p>hi</p>")
        .wait_until(DocumentLoadState::DomContentLoaded)
        .params();
    assert_eq!(
        to_bytes(&content),
        br#"{"html":"<p>hi</p>","waitUntil":"domcontentloaded"}"#.to_vec()
    );
    let wait = page
        .wait_for_selector_builder("div")
        .state(ElementState::Visible)
        .params();
    assert_eq!(to_bytes(&wait), br#"{"selector":"div","state":"visible"}"#.to_vec());
    let tag = page.add_script_tag_builder("x()").params();
    assert_eq!(to_bytes(&tag), br#"{"content":"x()"}"#.to_vec());
    let check = page.check_builder("c").force(true).params();
    assert_eq!(to_bytes(&check), br#"{"selector":"c","force":true}"#.to_vec());
    let uncheck = page.uncheck_builder("c").params();
    assert_eq!(to_bytes(&uncheck), br#"{"selector":"c"}"#.to_vec());
    let hover = page.hover_builder("c").params();
    assert_eq!(to_bytes(&hover), br#"{"selector":"c"}"#.to_vec());
    let dbl = page.dblclick_builder("c").params();
    assert_eq!(to_bytes(&dbl), br#"{"selector":"c"}"#.to_vec());
    let tap = page.tap_builder("c").params();
    assert_eq!(to_bytes(&tap), br#"{"selector":"c"}"#.to_vec());
}

#[test]
fn pdf_builder_params() {
    let mut page = Page::new(String::from("page@1"), String::from("frame@1"));
    let params = page
        .pdf_builder()
        .landscape(true)
        .format("A4")
        .prefer_css_page_size(false)
        .params();
    assert_eq!(
        to_bytes(&params),
        br#"{"landscape":true,"format":"A4","preferCSSPageSize":false}"#.to_vec()
    );
}

#[test]
fn builder_target_is_checked() {
    let mut conn = Connection::new();
    let mut page = Page::new(String::from("page@1"), String::from("frame@1"));
    match page.screenshot_builder().screenshot(&mut conn) {
        Err(Error::ObjectGone) => {}
        _ => panic!("a gone page must refuse the request"),
    }
}

#[test]
fn main_frame_handle() {
    let page = Page::new(String::from("page@1"), String::from("frame@1"));
    assert_eq!(page.main_frame_weak(), "frame@1");
    assert_eq!(page.main_frame().guid, "frame@1");
}

#[test]
fn builder_rule_threshold() {
    let required = ArgShape { required: true, is_options: false, property_count: 0 };
    let optional = ArgShape { required: false, is_options: false, property_count: 0 };
    assert!(!needs_builder(&vec![required, optional]));
    assert!(needs_builder(&vec![optional, optional]));
    let options3 = ArgShape { required: false, is_options: true, property_count: 3 };
    assert!(needs_builder(&vec![required, options3]));
    let empty_options = ArgShape { required: false, is_options: true, property_count: 0 };
    assert!(!needs_builder(&vec![empty_options]));
    assert!(!needs_builder(&vec![required, required]));
}

#[test]
fn browser_from_initializer() {
    let init = obj(vec![("version", s("91.0"))]);
    let mut b = Browser::try_new(String::from("browser@1"), &init).unwrap();
    assert_eq!(b.version(), "91.0");
    assert!(b.contexts().is_empty());

    match Browser::try_new(String::from("browser@1"), &obj(vec![])) {
        Err(Error::Serde) => {}
        _ => panic!("a browser initializer without a version is malformed"),
    }

    let mut conn = Connection::new();
    let create = |parent: &str, ty: &str, guid: &str| IncomingMessage::Event {
        guid: String::from(parent),
        method: String::from("__create__"),
        params: obj(vec![
            ("type", s(ty)),
            ("guid", s(guid)),
            ("initializer", obj(vec![])),
        ]),
    };
    conn.dispatch(create("", "Browser", "browser@1"));
    conn.dispatch(create("browser@1", "BrowserContext", "context@1"));
    let req = b.new_context(&mut conn, obj(vec![])).unwrap();
    assert_eq!(req.method, "newContext");
    assert_eq!(req.guid, "browser@1");
    let result = obj(vec![("context", obj(vec![("guid", s("context@1"))]))]);
    let got = b.on_new_context(&conn, &result).unwrap();
    assert_eq!(got, "context@1");
    assert_eq!(b.contexts(), vec![String::from("context@1")]);

    let close_req = b.close(&mut conn).unwrap();
    assert_eq!(close_req.method, "close");
    assert_eq!(to_bytes(&close_req.params), b"{}".to_vec());
    let swallowed = Browser::close_outcome(&ResponseOutcome::Failure(ErrorPayload {
        name: String::from("Browser has been closed"),
        message: String::from(""),
        stack: String::from(""),
    }));
    assert!(swallowed.is_ok());
    assert!(Browser::close_outcome(&ResponseOutcome::Success(JsonValue::Null)).is_ok());
}

#[test]
fn wire_names() {
    assert_eq!(DocumentLoadState::DomContentLoaded.wire_name(), "domcontentloaded");
    assert_eq!(ColorScheme::NoPreference.wire_name(), "no_preference");
    assert_eq!(MouseButton::Middle.wire_name(), "middle");
    assert_eq!(ScreenshotType::Png.wire_name(), "png");
    assert_eq!(ElementState::Hidden.wire_name(), "hidden");
    assert_eq!(KeyboardModifier::Meta.wire_name(), "Meta");
    assert!(matches!(SameSite::NoneValue, SameSite::NoneValue));
    let v = Viewport { width: 1280, height: 720 };
    assert_eq!(v.width, 1280);
    assert_eq!(v.height, 720);
    let h = Header::new(String::from("accept"), String::from("text/html"));
    let (name, value) = h.into_pair();
    assert_eq!(name, "accept");
    assert_eq!(value, "text/html");
}

#[test]
fn dispose_unknown_guid() {
    let mut conn = Connection::new();
    let msg = IncomingMessage::Event {
        guid: String::from("ghost"),
        method: String::from("__dispose__"),
        params: obj(vec![]),
    };
    match conn.dispatch(msg) {
        DispatchOutcome::UnknownObject => {}
        _ => panic!("expected unknown object"),
    }
}

#[test]
fn page_close_request() {
    let mut conn = conn_with_page();
    let mut page = Page::new(String::from("page@1"), String::from("frame@1"));
    let req = page.close(&mut conn, Some(true)).unwrap().unwrap();
    assert_eq!(req.method, "close");
    assert_eq!(req.guid, "page@1");
    assert_eq!(to_bytes(&req.params), br#"{"runBeforeUnload":true}"#.to_vec());

    let mut gone = Page::new(String::from("ghost"), String::from("frame@1"));
    assert!(gone.close(&mut conn, None).unwrap().is_none());
}

#[test]
fn new_context_params_always_name_the_sdk() {
    let plain = NewContextBuilder::new().params();
    assert_eq!(to_bytes(&plain), br#"{"sdkLanguage":"rust"}"#.to_vec());
    let set = NewContextBuilder::new()
        .viewport(Viewport { width: 1280, height: 720 })
        .js_enabled(true)
        .offline(false)
        .color_scheme(ColorScheme::Dark)
        .params();
    assert_eq!(
        to_bytes(&set),
        br#"{"sdkLanguage":"rust","viewport":{"width":1280,"height":720},"javaScriptEnabled":true,"offline":false,"colorScheme":"dark"}"#.to_vec()
    );
}

#[test]
fn new_context_params_carry_proxy_and_credentials() {
    let set = NewContextBuilder::new()
        .proxy(ProxySettings {
            server: String::from("http://proxy:8080"),
            bypass: Some(String::from("localhost")),
            username: None,
            password: None,
        })
        .http_credentials(HttpCredentials {
            username: String::from("user"),
            password: String::from("pass"),
        })
        .accept_downloads(true)
        .params();
    assert_eq!(
        to_bytes(&set),
        br#"{"sdkLanguage":"rust","proxy":{"server":"http://proxy:8080","bypass":"localhost"},"httpCredentials":{"username":"user","password":"pass"},"acceptDownloads":true}"#.to_vec()
    );
}

#[test]
fn page_forwarders_send_frame_and_page_requests() {
    let mut conn = conn_with_page();
    let mut page = Page::new(String::from("page@1"), String::from("frame@1"));
    let title = page.title(&mut conn).unwrap();
    assert_eq!(title.method, "title");
    assert_eq!(title.guid, "frame@1");
    assert_eq!(to_bytes(&title.params), b"{}".to_vec());
    let content = page.content(&mut conn).unwrap();
    assert_eq!(content.method, "content");
    assert_eq!(content.guid, "frame@1");
    let front = page.bring_to_front(&mut conn).unwrap();
    assert_eq!(front.method, "bringToFront");
    assert_eq!(front.guid, "page@1");
    let script = page.add_init_script(&mut conn, "init()").unwrap();
    assert_eq!(script.method, "addInitScript");
    assert_eq!(to_bytes(&script.params), br#"{"source":"init()"}"#.to_vec());
    assert_eq!(script.id, title.id + 3);
}

#[test]
fn string_result_reader() {
    let ok = obj(vec![("value", s("A Title"))]);
    assert_eq!(read_string_result(&ok).unwrap(), "A Title");
    match read_string_result(&obj(vec![])) {
        Err(Error::Serde) => {}
        _ => panic!("a result without a value string is malformed"),
    }
    match read_string_result(&obj(vec![("value", JsonValue::Int(3))])) {
        Err(Error::Serde) => {}
        _ => panic!("a non-string value is malformed"),
    }
}

#[test]
fn navigation_and_screenshot_readers() {
    let with_response = obj(vec![("response", obj(vec![("guid", s("response@1"))]))]);
    assert_eq!(
        read_navigation_result(&with_response).unwrap(),
        Some(String::from("response@1"))
    );
    assert_eq!(read_navigation_result(&obj(vec![])).unwrap(), None);
    match read_navigation_result(&obj(vec![("response", JsonValue::Int(1))])) {
        Err(Error::Serde) => {}
        _ => panic!("a non-object response reference is malformed"),
    }
    let shot = obj(vec![("binary", s("aGk="))]);
    assert_eq!(read_screenshot_result(&shot).unwrap(), "aGk=");
    match read_screenshot_result(&obj(vec![])) {
        Err(Error::Serde) => {}
        _ => panic!("a screenshot result without binary is malformed"),
    }
}

#[test]
fn selector_forwarders_and_element_reader() {
    let mut conn = conn_with_page();
    let mut page = Page::new(String::from("page@1"), String::from("frame@1"));
    let focus = page.focus(&mut conn, "input").unwrap();
    assert_eq!(focus.method, "focus");
    assert_eq!(to_bytes(&focus.params), br#"{"selector":"input"}"#.to_vec());
    let text = page.text_content(&mut conn, "p").unwrap();
    assert_eq!(text.method, "textContent");
    let inner_t = page.inner_text(&mut conn, "p").unwrap();
    assert_eq!(inner_t.method, "innerText");
    let inner_h = page.inner_html(&mut conn, "p").unwrap();
    assert_eq!(inner_h.method, "innerHTML");
    let attr = page.get_attribute(&mut conn, "a", "href").unwrap();
    assert_eq!(attr.method, "getAttribute");
    assert_eq!(
        to_bytes(&attr.params),
        br#"{"selector":"a","name":"href"}"#.to_vec()
    );
    let q = page.query_selector(&mut conn, "div").unwrap();
    assert_eq!(q.method, "querySelector");
    let qa = page.query_selector_all(&mut conn, "div").unwrap();
    assert_eq!(qa.method, "querySelectorAll");
    let style = page
        .add_style_tag(&mut conn, "p{}", Some("https://example/s.css"))
        .unwrap();
    assert_eq!(style.method, "addStyleTag");
    assert_eq!(
        to_bytes(&style.params),
        br#"{"content":"p{}","url":"https://example/s.css"}"#.to_vec()
    );

    let hit = obj(vec![("element", obj(vec![("guid", s("element@1"))]))]);
    assert_eq!(
        playwright::page::read_element_result(&hit).unwrap(),
        Some(String::from("element@1"))
    );
    assert_eq!(playwright::page::read_element_result(&obj(vec![])).unwrap(), None);
    let missing = obj(vec![]);
    assert_eq!(
        playwright::page::read_optional_string_result(&missing).unwrap(),
        None
    );
    assert_eq!(
        playwright::page::read_optional_string_result(&obj(vec![("value", s("x"))])).unwrap(),
        Some(String::from("x"))
    );
}
