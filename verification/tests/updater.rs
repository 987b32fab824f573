use floydns::blocks::{delete_block, insert_block, replace_block};
use floydns::config::Config;
use floydns::errors::ErrorKind;
use floydns::updater::{
    add_slug_page, create_domain, delete_domain, delete_slug_page, ensure_linked,
    get_domain_paths, insert_location_block, update_slug_page, FileAction,
};

fn config() -> Config {
    Config {
        jwt_secret: String::new(),
        smtp_host: String::new(),
        smtp_username: String::new(),
        smtp_password: String::new(),
        smtp_from_email: String::new(),
        smtp_from_name: String::new(),
        base_url: String::new(),
        prefix: "/var/www".to_string(),
        cf_email: String::new(),
        cf_api_key: String::new(),
        cf_zone_id: String::new(),
        dns_suffix: "example.com".to_string(),
        database_path: String::new(),
        ip: String::new(),
    }
}

const SITE: &str = "server {\n    listen 80;\n    server_name acme.example.com;\n    root /var/www/u1/b2;\n    index index.html;\n\n    location / {\n        rewrite ^/$ /home break;\n    }\n}\n";

#[test]
fn paths_are_built_from_tenant_and_business() {
    let (available, enabled) = get_domain_paths("u1", "b2");
    assert_eq!(available, "/etc/nginx/sites-available/u1/b2/nginx.conf");
    assert_eq!(enabled, "/etc/nginx/sites-enabled/u1/b2/nginx.conf");
}

#[test]
fn create_domain_writes_the_server_block() {
    let actions = create_domain("u1", "b2", "acme", "home", &config());
    assert_eq!(
        actions,
        vec![
            FileAction::CreateDirs("/etc/nginx/sites-available/u1/b2".to_string()),
            FileAction::Write(
                "/etc/nginx/sites-available/u1/b2/nginx.conf".to_string(),
                SITE.to_string()
            ),
        ]
    );
}

#[test]
fn link_is_made_only_where_nothing_is_there() {
    assert_eq!(ensure_linked("/a/draft", "/a/active", true), None);
    assert_eq!(
        ensure_linked("/a/draft", "/a/active", false),
        Some(FileAction::Link("/a/draft".to_string(), "/a/active".to_string()))
    );
}

#[test]
fn delete_domain_removes_what_exists_active_first() {
    let available = "/etc/nginx/sites-available/u1/b2/nginx.conf".to_string();
    let enabled = "/etc/nginx/sites-enabled/u1/b2/nginx.conf".to_string();
    assert_eq!(
        delete_domain("u1", "b2", true, true),
        vec![FileAction::Remove(enabled.clone()), FileAction::Remove(available.clone())]
    );
    assert_eq!(delete_domain("u1", "b2", true, false), vec![FileAction::Remove(enabled)]);
    assert_eq!(delete_domain("u1", "b2", false, true), vec![FileAction::Remove(available)]);
    assert_eq!(delete_domain("u1", "b2", false, false), vec![]);
}

#[test]
fn slug_without_target_leads_to_the_site_index() {
    let mut content = SITE.to_string();
    assert_eq!(add_slug_page(&mut content, "shop", "site42", None), Ok(()));
    let expected = "server {\n    listen 80;\n    server_name acme.example.com;\n    root /var/www/u1/b2;\n    index index.html;\n\n    location / {\n        rewrite ^/$ /home break;\n    }\n\n    location /shop {\n        rewrite ^/shop$ /site42/index.html break;\n    }\n}\n";
    assert_eq!(content, expected);
}

#[test]
fn slug_with_target_leads_there() {
    let mut content = "server {\n}".to_string();
    assert_eq!(add_slug_page(&mut content, "blog", "site42", Some("/posts/index.html")), Ok(()));
    assert_eq!(
        content,
        "server {\n\n    location /blog {\n        rewrite ^/blog$ /posts/index.html break;\n    }\n}"
    );
}

#[test]
fn add_slug_needs_a_closing_brace() {
    let mut content = "server {\n    listen 80;\n".to_string();
    assert_eq!(add_slug_page(&mut content, "shop", "site42", None), Err(ErrorKind::MalformedFile));
    assert_eq!(content, "server {\n    listen 80;\n");
    let mut empty = String::new();
    assert_eq!(insert_location_block(&mut empty, "x"), Err(ErrorKind::MalformedFile));
    assert_eq!(empty, "");
}

#[test]
fn insert_goes_before_the_last_brace() {
    let mut content = "a { b { } } tail".to_string();
    assert_eq!(insert_location_block(&mut content, "<X>"), Ok(()));
    assert_eq!(content, "a { b { } <X>} tail");
    let mut content = "é}ü".to_string();
    assert_eq!(insert_block(&mut content, "ß"), Ok(()));
    assert_eq!(content, "éß}ü");
}

#[test]
fn update_replaces_the_block_of_the_previous_slug() {
    let mut content = SITE.to_string();
    add_slug_page(&mut content, "shop", "site42", None).unwrap();
    add_slug_page(&mut content, "blog", "site42", None).unwrap();
    assert_eq!(update_slug_page(&mut content, "store", "shop", "site7", None), Ok(()));
    let expected = "server {\n    listen 80;\n    server_name acme.example.com;\n    root /var/www/u1/b2;\n    index index.html;\n\n    location / {\n        rewrite ^/$ /home break;\n    }\n\n    location /store {\n        rewrite ^/store$ /site7/index.html break;\n    }\n\n    location /blog {\n        rewrite ^/blog$ /site42/index.html break;\n    }\n}\n";
    assert_eq!(content, expected);
}

#[test]
fn update_and_delete_of_missing_slug_fail_with_marker_not_found() {
    let mut content = SITE.to_string();
    assert_eq!(
        update_slug_page(&mut content, "store", "shop", "site7", None),
        Err(ErrorKind::MarkerNotFound)
    );
    assert_eq!(content, SITE);
    assert_eq!(delete_slug_page(&mut content, "shop"), Err(ErrorKind::MarkerNotFound));
    assert_eq!(content, SITE);
    let mut open = "location /shop {\n  rewrite".to_string();
    assert_eq!(delete_slug_page(&mut open, "shop"), Err(ErrorKind::MarkerNotFound));
    assert_eq!(open, "location /shop {\n  rewrite");
}

#[test]
fn add_update_delete_restores_the_file_but_for_whitespace() {
    let mut content = SITE.to_string();
    add_slug_page(&mut content, "shop", "site42", None).unwrap();
    update_slug_page(&mut content, "shop", "shop", "site42", Some("/sale.html")).unwrap();
    delete_slug_page(&mut content, "shop").unwrap();
    let at = SITE.rfind('}').unwrap();
    let expected = format!("{}\n    \n{}", &SITE[..at], &SITE[at..]);
    assert_eq!(content, expected);
}

#[test]
fn block_extent_ends_at_the_first_closing_brace() {
    let mut content = "x location /a { if { y } z } w".to_string();
    assert_eq!(delete_block(&mut content, "location /a {"), Ok(()));
    assert_eq!(content, "x  z } w");
    let mut content = "m{1} m{2}".to_string();
    assert_eq!(replace_block(&mut content, "m{", "N"), Ok(()));
    assert_eq!(content, "N m{2}");
    let mut content = "m}".to_string();
    assert_eq!(replace_block(&mut content, "m}", "[]"), Ok(()));
    assert_eq!(content, "[]");
    let mut content = "ab}".to_string();
    assert_eq!(replace_block(&mut content, "", "<>"), Ok(()));
    assert_eq!(content, "<>");
}
