use sglib::codec::SourceFetchError;
use sglib::profile::skin_url;
use sglib::upload::ServiceReply;

fn profile_with(value: &str) -> String {
    format!(
        "{{\"id\":\"a1f943fc512e4b379f780ede2c823707\",\"name\":\"player\",\"properties\":[{{\"name\":\"textures\",\"value\":\"{}\"}}]}}",
        value
    )
}

fn property(url: &str) -> String {
    format!(
        "{{\"timestamp\":1,\"profileName\":\"player\",\"textures\":{{\"SKIN\":{{\"url\":\"{}\"}}}}}}",
        url
    )
}

#[test]
fn skin_url_is_read_from_the_first_property() {
    let url = "http://textures.minecraft.net/texture/0123456789abcdef";
    let profile = profile_with(&base64::encode(property(url)));
    assert_eq!(skin_url(&profile), Ok(url.to_string()));
}

#[test]
fn skin_url_for_a_known_encoding() {
    // base64 of {"textures":{"SKIN":{"url":"http://a/b"}}}
    let value = "eyJ0ZXh0dXJlcyI6eyJTS0lOIjp7InVybCI6Imh0dHA6Ly9hL2IifX19";
    assert_eq!(skin_url(&profile_with(value)), Ok("http://a/b".to_string()));
}

#[test]
fn skin_url_of_no_json_is_an_error() {
    assert_eq!(skin_url(""), Err(SourceFetchError));
    assert_eq!(skin_url("not json"), Err(SourceFetchError));
    assert_eq!(skin_url("{\"properties\":"), Err(SourceFetchError));
}

#[test]
fn skin_url_without_property_is_an_error() {
    assert_eq!(skin_url("{}"), Err(SourceFetchError));
    assert_eq!(skin_url("{\"properties\":[]}"), Err(SourceFetchError));
    assert_eq!(skin_url("{\"properties\":[{\"name\":\"textures\"}]}"), Err(SourceFetchError));
    assert_eq!(skin_url("{\"properties\":[{\"value\":7}]}"), Err(SourceFetchError));
    assert_eq!(skin_url("{\"properties\":{\"value\":\"e30=\"}}"), Err(SourceFetchError));
}

#[test]
fn skin_url_of_a_value_that_is_no_base64_is_an_error() {
    assert_eq!(skin_url(&profile_with("***")), Err(SourceFetchError));
    assert_eq!(skin_url(&profile_with("abc")), Err(SourceFetchError));
}

#[test]
fn skin_url_of_bytes_that_are_no_text_is_an_error() {
    let value = base64::encode([0xffu8, 0xfe, 0x00, 0x80]);
    assert_eq!(skin_url(&profile_with(&value)), Err(SourceFetchError));
}

#[test]
fn skin_url_of_a_property_without_skin_is_an_error() {
    for document in ["{}", "{\"textures\":{}}", "{\"textures\":{\"SKIN\":{}}}", "{\"textures\":{\"SKIN\":{\"url\":5}}}", "[]", "plain"] {
        let profile = profile_with(&base64::encode(document));
        assert_eq!(skin_url(&profile), Err(SourceFetchError), "{}", document);
    }
}

#[test]
fn skin_url_reads_the_first_property_only() {
    let first = base64::encode(property("http://first"));
    let second = base64::encode(property("http://second"));
    let profile = format!(
        "{{\"properties\":[{{\"value\":\"{}\"}},{{\"value\":\"{}\"}}]}}",
        first, second
    );
    assert_eq!(skin_url(&profile), Ok("http://first".to_string()));
}

#[test]
fn reply_with_a_texture() {
    let body = "{\"id\":3,\"data\":{\"uuid\":\"x\",\"texture\":{\"value\":\"val\",\"signature\":\"sig\",\"url\":\"u\"}}}";
    let reply = ServiceReply::from_body(body);
    assert_eq!(reply.signature, Some("sig".to_string()));
    assert_eq!(reply.value, Some("val".to_string()));
    let handle = reply.into_handle().unwrap();
    assert_eq!((handle.signature.as_str(), handle.value.as_str()), ("sig", "val"));
}

#[test]
fn reply_without_a_texture() {
    for body in [
        "",
        "<html>busy</html>",
        "{}",
        "{\"error\":\"Too many requests\",\"nextRequest\":5}",
        "{\"data\":{}}",
        "{\"data\":{\"texture\":{}}}",
        "{\"data\":{\"texture\":null}}",
        "{\"data\":[{\"texture\":{\"signature\":\"s\",\"value\":\"v\"}}]}",
        "{\"texture\":{\"signature\":\"s\",\"value\":\"v\"}}",
    ] {
        let reply = ServiceReply::from_body(body);
        assert_eq!(reply.signature, None, "{}", body);
        assert_eq!(reply.value, None, "{}", body);
        assert!(ServiceReply::from_body(body).into_handle().is_none());
    }
}

#[test]
fn reply_with_half_a_texture() {
    let reply = ServiceReply::from_body("{\"data\":{\"texture\":{\"signature\":\"s\"}}}");
    assert_eq!(reply.signature, Some("s".to_string()));
    assert_eq!(reply.value, None);
    assert!(reply.into_handle().is_none());
    let reply = ServiceReply::from_body("{\"data\":{\"texture\":{\"signature\":1,\"value\":\"v\"}}}");
    assert_eq!(reply.signature, None);
    assert_eq!(reply.value, Some("v".to_string()));
    assert!(reply.into_handle().is_none());
}
