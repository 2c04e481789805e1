use pdf_pages::{
    CommandHandler, QueryHandler, ShortenerError, Slug, Url, UrlShortenerService,
};

#[test]
pub fn test() {
    let mut service = UrlShortenerService::new();

    let short_link = service.handle_create_short_link(Url("https://ya.ru".to_string()), None).unwrap();
    let slug = short_link.slug.clone();
    let err_link = service.handle_create_short_link(Url("http://ya.ru".to_string()), Some(slug));
    assert_eq!(err_link.err().unwrap(), ShortenerError::SlugAlreadyInUse);

    let _redirected_link = service.handle_redirect(short_link.slug.clone());
    let err_redirected_link = service.handle_redirect(Slug("123321".to_owned()));
    assert_eq!(err_redirected_link.err().unwrap(), ShortenerError::SlugNotFound);
    let stats = service.get_stats(short_link.slug.clone()).unwrap();
    assert_eq!(stats.redirects, 1);
    println!("{:?}", stats);
}

#[test]
fn invalid_url_is_refused() {
    let mut service = UrlShortenerService::new();
    let r = service.handle_create_short_link(Url("ftp://ya.ru".to_string()), None);
    assert_eq!(r.err().unwrap(), ShortenerError::InvalidUrl);
    let r = service.handle_create_short_link(Url("http:/".to_string()), Some(Slug("a".to_string())));
    assert_eq!(r.err().unwrap(), ShortenerError::InvalidUrl);
    assert_eq!(service.get_stats(Slug("a".to_string())).err().unwrap(), ShortenerError::SlugNotFound);
}

#[test]
fn valid_url_prefixes() {
    assert!(UrlShortenerService::valid_url("http://x"));
    assert!(UrlShortenerService::valid_url("https://x"));
    assert!(UrlShortenerService::valid_url("http://"));
    assert!(!UrlShortenerService::valid_url("http:/"));
    assert!(!UrlShortenerService::valid_url(""));
    assert!(!UrlShortenerService::valid_url("HTTP://x"));
}

#[test]
fn custom_slug_is_kept() {
    let mut service = UrlShortenerService::new();
    let link = service
        .handle_create_short_link(Url("https://a.b".to_string()), Some(Slug("mine".to_string())))
        .unwrap();
    assert_eq!(link.slug, Slug("mine".to_string()));
    assert_eq!(link.url, Url("https://a.b".to_string()));
    let followed = service.handle_redirect(Slug("mine".to_string())).unwrap();
    assert_eq!(followed, link);
    service.handle_redirect(Slug("mine".to_string())).unwrap();
    let stats = service.get_stats(Slug("mine".to_string())).unwrap();
    assert_eq!(stats.redirects, 2);
    assert_eq!(stats.link, link);
}

#[test]
fn generated_slugs_have_six_charset_characters() {
    let slug = UrlShortenerService::generate_slug();
    assert_eq!(slug.0.chars().count(), 6);
    assert!(slug.0.chars().all(|c| c.is_ascii_alphanumeric()));
    let mut service = UrlShortenerService::new();
    let a = service.handle_create_short_link(Url("https://a".to_string()), None).unwrap();
    let b = service.handle_create_short_link(Url("https://b".to_string()), None).unwrap();
    assert_ne!(a.slug, b.slug);
    assert_eq!(service.get_stats(a.slug.clone()).unwrap().redirects, 0);
}
