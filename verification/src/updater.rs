//! The configuration file of a site: where it lies, what it holds when the site is
//! made, and the location blocks that map its slugs to pages.
//!
//! Nothing here touches the file system. The functions that change a file take its
//! text and leave the changed text; those that set a site up or take it down say
//! which actions on files are due, in their order.

use crate::blocks::{
    delete_block, deleted, insert_block, inserted, law_insert_replace_delete, replace_block,
    replaced,
};
use crate::config::Config;
use crate::errors::{ErrorKind, ErrorKindView};
use crate::text::{first_occurrence, last_index};
use vstd::prelude::*;
use vstd::string::*;

verus! {

/// The draft configuration of a site: `/etc/nginx/sites-available/{user}/{business}/nginx.conf`.
pub open spec fn available_path(user_id: Seq<char>, business_id: Seq<char>) -> Seq<char> {
    available_directory(user_id, business_id) + "/nginx.conf"@
}

/// The directory of the draft configuration of a site.
pub open spec fn available_directory(user_id: Seq<char>, business_id: Seq<char>) -> Seq<char> {
    "/etc/nginx/sites-available/"@ + user_id + "/"@ + business_id
}

/// The active configuration of a site: `/etc/nginx/sites-enabled/{user}/{business}/nginx.conf`.
pub open spec fn enabled_path(user_id: Seq<char>, business_id: Seq<char>) -> Seq<char> {
    "/etc/nginx/sites-enabled/"@ + user_id + "/"@ + business_id + "/nginx.conf"@
}

fn available_directory_text(user_id: &str, business_id: &str) -> (r: String)
    ensures
        r@ == available_directory(user_id@, business_id@),
{
    let mut r = String::from_str("/etc/nginx/sites-available/");
    r.append(user_id);
    r.append("/");
    r.append(business_id);
    r
}

/// The paths of the draft and of the active configuration of a site, in this order.
pub fn get_domain_paths(user_id: &str, business_id: &str) -> (paths: (String, String))
    ensures
        paths.0@ == available_path(user_id@, business_id@),
        paths.1@ == enabled_path(user_id@, business_id@),
{
    let mut available = available_directory_text(user_id, business_id);
    available.append("/nginx.conf");
    let mut enabled = String::from_str("/etc/nginx/sites-enabled/");
    enabled.append(user_id);
    enabled.append("/");
    enabled.append(business_id);
    enabled.append("/nginx.conf");
    (available, enabled)
}

/// One action on the file system.
#[derive(Debug, Clone, PartialEq, Eq)]
pub enum FileAction {
    /// Make this directory, and those above it that are missing.
    CreateDirs(String),
    /// Write this file, in the first place, with this text, in the second.
    Write(String, String),
    /// Make a link to the first path at the second.
    Link(String, String),
    /// Remove this file.
    Remove(String),
}

/// `FileAction` with its texts as sequences of characters.
pub enum FileActionView {
    CreateDirs(Seq<char>),
    Write(Seq<char>, Seq<char>),
    Link(Seq<char>, Seq<char>),
    Remove(Seq<char>),
}

impl View for FileAction {
    type V = FileActionView;

    open spec fn view(&self) -> FileActionView {
        match *self {
            FileAction::CreateDirs(path) => FileActionView::CreateDirs(path@),
            FileAction::Write(path, text) => FileActionView::Write(path@, text@),
            FileAction::Link(target, link) => FileActionView::Link(target@, link@),
            FileAction::Remove(path) => FileActionView::Remove(path@),
        }
    }
}

/// The actions of a list, each by its view.
pub open spec fn action_views(actions: Seq<FileAction>) -> Seq<FileActionView> {
    Seq::new(actions.len(), |i: int| actions[i]@)
}

/// The configuration that a new site starts with: one server block for
/// `{domain}.{suffix}`, rooted at `{prefix}/{user}/{business}`, whose front page is
/// `page_id`.
pub open spec fn site_config(
    domain: Seq<char>,
    suffix: Seq<char>,
    prefix: Seq<char>,
    user_id: Seq<char>,
    business_id: Seq<char>,
    page_id: Seq<char>,
) -> Seq<char> {
    "server {\n    listen 80;\n    server_name "@ + domain + "."@ + suffix + ";\n    root "@
        + prefix + "/"@ + user_id + "/"@ + business_id
        + ";\n    index index.html;\n\n    location / {\n        rewrite ^/$ /"@ + page_id
        + " break;\n    }\n}\n"@
}

/// The actions that lay down the draft configuration of a new site: its directory is
/// made, then the file is written. Linking the active path follows, by
/// `ensure_linked`.
pub fn create_domain(
    user_id: &str,
    business_id: &str,
    domain: &str,
    page_id: &str,
    cfg: &Config,
) -> (actions: Vec<FileAction>)
    ensures
        action_views(actions@) == seq![
            FileActionView::CreateDirs(available_directory(user_id@, business_id@)),
            FileActionView::Write(
                available_path(user_id@, business_id@),
                site_config(
                    domain@,
                    cfg.dns_suffix@,
                    cfg.prefix@,
                    user_id@,
                    business_id@,
                    page_id@,
                ),
            ),
        ],
{
    let directory = available_directory_text(user_id, business_id);
    let (available, _) = get_domain_paths(user_id, business_id);
    let mut text = String::from_str("server {\n    listen 80;\n    server_name ");
    text.append(domain);
    text.append(".");
    text.append(cfg.dns_suffix.as_str());
    text.append(";\n    root ");
    text.append(cfg.prefix.as_str());
    text.append("/");
    text.append(user_id);
    text.append("/");
    text.append(business_id);
    text.append(";\n    index index.html;\n\n    location / {\n        rewrite ^/$ /");
    text.append(page_id);
    text.append(" break;\n    }\n}\n");
    let mut actions: Vec<FileAction> = Vec::new();
    actions.push(FileAction::CreateDirs(directory));
    actions.push(FileAction::Write(available, text));
    assert(action_views(actions@) =~= seq![
        FileActionView::CreateDirs(available_directory(user_id@, business_id@)),
        FileActionView::Write(
            available_path(user_id@, business_id@),
            site_config(domain@, cfg.dns_suffix@, cfg.prefix@, user_id@, business_id@, page_id@),
        ),
    ]);
    actions
}

/// Links the active path to the draft, unless something is at the active path
/// already: a link or a file that is there is never replaced.
pub fn ensure_linked(draft: &str, active: &str, active_exists: bool) -> (action: Option<
    FileAction,
>)
    ensures
        match action {
            Some(a) => !active_exists && a@ == FileActionView::Link(draft@, active@),
            None => active_exists,
        },
{
    if active_exists {
        None
    } else {
        Some(FileAction::Link(String::from_str(draft), String::from_str(active)))
    }
}

/// The actions that take a site down: the active path is removed, then the draft,
/// each only if it is there.
pub fn delete_domain(
    user_id: &str,
    business_id: &str,
    enabled_exists: bool,
    available_exists: bool,
) -> (actions: Vec<FileAction>)
    ensures
        action_views(actions@) == (if enabled_exists {
            seq![FileActionView::Remove(enabled_path(user_id@, business_id@))]
        } else {
            Seq::<FileActionView>::empty()
        }) + (if available_exists {
            seq![FileActionView::Remove(available_path(user_id@, business_id@))]
        } else {
            Seq::<FileActionView>::empty()
        }),
{
    let (available, enabled) = get_domain_paths(user_id, business_id);
    let mut actions: Vec<FileAction> = Vec::new();
    if enabled_exists {
        actions.push(FileAction::Remove(enabled));
    }
    if available_exists {
        actions.push(FileAction::Remove(available));
    }
    assert(action_views(actions@) =~= (if enabled_exists {
        seq![FileActionView::Remove(enabled_path(user_id@, business_id@))]
    } else {
        Seq::<FileActionView>::empty()
    }) + (if available_exists {
        seq![FileActionView::Remove(available_path(user_id@, business_id@))]
    } else {
        Seq::<FileActionView>::empty()
    }));
    actions
}

/// The header line of the location block of a slug: `location /{slug} {`.
pub open spec fn block_marker(slug: Seq<char>) -> Seq<char> {
    "location /"@ + slug + " {"@
}

/// What stands between the header line of a location block and its closing brace:
/// the rule that rewrites `/{slug}` to `target`.
pub open spec fn block_body(slug: Seq<char>, target: Seq<char>) -> Seq<char> {
    "\n        rewrite ^/"@ + slug + "$ "@ + target + " break;\n    "@
}

/// The location block of a slug, as it takes the place of another.
pub open spec fn replacement_block(slug: Seq<char>, target: Seq<char>) -> Seq<char> {
    block_marker(slug) + block_body(slug, target) + "}"@
}

/// The location block of a slug, as it is inserted: on a line of its own, indented.
pub open spec fn location_block(slug: Seq<char>, target: Seq<char>) -> Seq<char> {
    "\n    "@ + replacement_block(slug, target) + "\n"@
}

/// Where a slug leads: to `target` where one is given, else to the front page of the
/// site, `/{site}/index.html`.
pub open spec fn rewrite_target(site: Seq<char>, target: Option<Seq<char>>) -> Seq<char> {
    match target {
        Some(t) => t,
        None => "/"@ + site + "/index.html"@,
    }
}

/// The view of a text that may be missing.
pub open spec fn text_view(text: Option<&str>) -> Option<Seq<char>> {
    match text {
        Some(t) => Some(t@),
        None => None,
    }
}

fn marker_text(slug: &str) -> (r: String)
    ensures
        r@ == block_marker(slug@),
{
    let mut r = String::from_str("location /");
    r.append(slug);
    r.append(" {");
    r
}

fn target_text(site: &str, target: Option<&str>) -> (r: String)
    ensures
        r@ == rewrite_target(site@, text_view(target)),
{
    match target {
        Some(t) => String::from_str(t),
        None => {
            let mut r = String::from_str("/");
            r.append(site);
            r.append("/index.html");
            r
        },
    }
}

fn replacement_text(slug: &str, target: &str) -> (r: String)
    ensures
        r@ == replacement_block(slug@, target@),
{
    let mut r = marker_text(slug);
    r.append("\n        rewrite ^/");
    r.append(slug);
    r.append("$ ");
    r.append(target);
    r.append(" break;\n    ");
    r.append("}");
    assert(r@ =~= replacement_block(slug@, target@));
    r
}

/// Puts `location_block` into `content` just before the last closing brace, the one
/// that closes the server block.
///
/// Fails with `MalformedFile`, and changes nothing, where `content` has no closing
/// brace.
pub fn insert_location_block(content: &mut String, location_block: &str) -> (r: Result<
    (),
    ErrorKind,
>)
    ensures
        match inserted(old(content)@, location_block@) {
            Some(text) => r is Ok && final(content)@ == text,
            None => r matches Err(e) && e@ == ErrorKindView::MalformedFile && final(content)@ == old(
                content,
            )@,
        },
{
    insert_block(content, location_block)
}

/// `file` with a location block for `slug` added.
pub open spec fn slug_added(
    file: Seq<char>,
    slug: Seq<char>,
    site: Seq<char>,
    target: Option<Seq<char>>,
) -> Option<Seq<char>> {
    inserted(file, location_block(slug, rewrite_target(site, target)))
}

/// `file` with the location block of `previous_slug` replaced by one for `slug`.
pub open spec fn slug_updated(
    file: Seq<char>,
    slug: Seq<char>,
    previous_slug: Seq<char>,
    site: Seq<char>,
    target: Option<Seq<char>>,
) -> Option<Seq<char>> {
    replaced(
        file,
        block_marker(previous_slug),
        replacement_block(slug, rewrite_target(site, target)),
    )
}

/// `file` without the location block of `slug`.
pub open spec fn slug_deleted(file: Seq<char>, slug: Seq<char>) -> Option<Seq<char>> {
    deleted(file, block_marker(slug))
}

/// Adds a location block that leads `/{slug}` to `rewrite_target`, or to the front
/// page of `new_site` where no target is given.
///
/// Fails with `MalformedFile`, and changes nothing, where `content` has no closing
/// brace.
pub fn add_slug_page(
    content: &mut String,
    slug: &str,
    new_site: &str,
    rewrite_target: Option<&str>,
) -> (r: Result<(), ErrorKind>)
    ensures
        match slug_added(old(content)@, slug@, new_site@, text_view(rewrite_target)) {
            Some(text) => r is Ok && final(content)@ == text,
            None => r matches Err(e) && e@ == ErrorKindView::MalformedFile && final(content)@ == old(
                content,
            )@,
        },
{
    let target = target_text(new_site, rewrite_target);
    let inner = replacement_text(slug, target.as_str());
    let mut block = String::from_str("\n    ");
    block.append(inner.as_str());
    block.append("\n");
    insert_location_block(content, block.as_str())
}

/// Puts a location block for `slug` in the place of the one for `previous_slug`.
///
/// Fails with `MarkerNotFound`, and changes nothing, where `content` has no block for
/// `previous_slug`.
pub fn update_slug_page(
    content: &mut String,
    slug: &str,
    previous_slug: &str,
    new_site: &str,
    rewrite_target: Option<&str>,
) -> (r: Result<(), ErrorKind>)
    ensures
        match slug_updated(
            old(content)@,
            slug@,
            previous_slug@,
            new_site@,
            text_view(rewrite_target),
        ) {
            Some(text) => r is Ok && final(content)@ == text,
            None => r matches Err(e) && e@ == ErrorKindView::MarkerNotFound && final(content)@
                == old(content)@,
        },
{
    let marker = marker_text(previous_slug);
    let target = target_text(new_site, rewrite_target);
    let block = replacement_text(slug, target.as_str());
    replace_block(content, marker.as_str(), block.as_str())
}

/// Takes the location block of `slug` out.
///
/// Fails with `MarkerNotFound`, and changes nothing, where `content` has no block for
/// `slug`.
pub fn delete_slug_page(content: &mut String, slug: &str) -> (r: Result<(), ErrorKind>)
    ensures
        match slug_deleted(old(content)@, slug@) {
            Some(text) => r is Ok && final(content)@ == text,
            None => r matches Err(e) && e@ == ErrorKindView::MarkerNotFound && final(content)@
                == old(content)@,
        },
{
    let marker = marker_text(slug);
    delete_block(content, marker.as_str())
}

/// Texts without a closing brace, put together, have none.
proof fn lemma_no_brace(a: Seq<char>, b: Seq<char>)
    requires
        !a.contains('}'),
        !b.contains('}'),
    ensures
        !(a + b).contains('}'),
{
    assert forall|i: int| 0 <= i < (a + b).len() implies (a + b)[i] != '}' by {
        if i < a.len() {
            assert(a.contains((a + b)[i]));
        } else {
            assert(b[i - a.len()] == (a + b)[i]);
            assert(b.contains((a + b)[i]));
        }
    }
}

/// The header line and the rule of a location block hold no closing brace where the
/// slug and the target hold none.
proof fn lemma_block_has_no_brace(slug: Seq<char>, target: Seq<char>)
    requires
        !slug.contains('}'),
        !target.contains('}'),
    ensures
        !(block_marker(slug) + block_body(slug, target)).contains('}'),
{
    reveal_strlit("location /");
    reveal_strlit(" {");
    reveal_strlit("\n        rewrite ^/");
    reveal_strlit("$ ");
    reveal_strlit(" break;\n    ");
    lemma_no_brace("location /"@, slug);
    lemma_no_brace("location /"@ + slug, " {"@);
    lemma_no_brace("\n        rewrite ^/"@, slug);
    lemma_no_brace("\n        rewrite ^/"@ + slug, "$ "@);
    lemma_no_brace("\n        rewrite ^/"@ + slug + "$ "@, target);
    lemma_no_brace("\n        rewrite ^/"@ + slug + "$ "@ + target, " break;\n    "@);
    lemma_no_brace(block_marker(slug), block_body(slug, target));
}

/// A slug that is added, updated under its own name and deleted leaves the file as
/// it was, but for a blank indented line before the closing brace of the server
/// block.
///
/// This holds where the file has no block for the slug before, and neither the slug
/// nor the two targets hold a closing brace.
pub proof fn law_slug_round_trip(
    file: Seq<char>,
    slug: Seq<char>,
    site: Seq<char>,
    first_target: Option<Seq<char>>,
    second_target: Option<Seq<char>>,
)
    requires
        last_index(file, '}') matches Some(at) && first_occurrence(
            file.subrange(0, at) + "\n    "@ + block_marker(slug),
            block_marker(slug),
        ) == Some(at + "\n    "@.len()),
        !slug.contains('}'),
        !rewrite_target(site, first_target).contains('}'),
        !rewrite_target(site, second_target).contains('}'),
    ensures
        ({
            let at = last_index(file, '}')->0;
            &&& slug_added(file, slug, site, first_target) matches Some(added)
            &&& slug_updated(added, slug, slug, site, second_target) matches Some(updated)
            &&& slug_deleted(updated, slug) == Some(
                file.subrange(0, at) + "\n    \n"@ + file.subrange(at, file.len() as int),
            )
        }),
{
    let lead = "\n    "@;
    let trail = "\n"@;
    let marker = block_marker(slug);
    let first = rewrite_target(site, first_target);
    let second = rewrite_target(site, second_target);
    let body = block_body(slug, first);
    let new_body = block_body(slug, second);
    reveal_strlit("}");
    reveal_strlit("\n    ");
    reveal_strlit("\n");
    reveal_strlit("\n    \n");
    assert("}"@ =~= seq!['}']);
    assert(location_block(slug, first) =~= lead + marker + body + seq!['}'] + trail);
    assert(replacement_block(slug, second) =~= marker + new_body + seq!['}']);
    assert(lead + trail =~= "\n    \n"@);
    lemma_block_has_no_brace(slug, first);
    lemma_block_has_no_brace(slug, second);
    law_insert_replace_delete(file, lead, marker, body, trail, new_body);
    let at = last_index(file, '}')->0;
    assert(file.subrange(0, at) + lead + trail + file.subrange(at, file.len() as int)
        =~= file.subrange(0, at) + "\n    \n"@ + file.subrange(at, file.len() as int));
}

} // verus!
