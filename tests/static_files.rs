use kaserve::static_files::{
    render_listing, resolve_path, sort_entries, DirEntry, PathKind, StaticFileHandler, StaticPlan,
};

fn entry(name: &str, is_dir: bool) -> DirEntry {
    DirEntry { name: name.to_string(), is_dir }
}

fn served(p: StaticPlan) -> Option<String> {
    match p {
        StaticPlan::ServeFile(s) => Some(s),
        _ => None,
    }
}

#[test]
fn parent_segments_are_dropped() {
    assert_eq!(resolve_path("/srv/www", "/../../etc/passwd"), "/srv/www/etc/passwd");
    assert_eq!(resolve_path("/srv/www", "/a/../b"), "/srv/www/a/b");
    assert_eq!(resolve_path("/srv/www", "/.."), "/srv/www");
    assert_eq!(resolve_path("/srv/www/", "//x//./y/"), "/srv/www/x/y");
    assert_eq!(resolve_path("/srv/www", "/"), "/srv/www");
    assert_eq!(resolve_path("/srv/www", "/..hidden/..."), "/srv/www/..hidden/...");
}

#[test]
fn resolved_paths_stay_below_root() {
    for p in ["/../..", "..", "/a/../../..", "/./../x", "x/../../y"] {
        let r = resolve_path("/srv/www", p);
        assert!(r.starts_with("/srv/www"), "{}", r);
        assert!(!r.split('/').any(|s| s == ".."), "{}", r);
    }
}

#[test]
fn listing_disabled_without_default_file_is_forbidden() {
    let h = StaticFileHandler::new("/srv", false, "index.html".to_string());
    assert!(matches!(h.plan("/docs", PathKind::Directory, false, false), StaticPlan::Forbidden));
    let r = h.list_directory("/docs", vec![entry("a", false)]);
    assert_eq!(r.status(), 403);
    assert_eq!(r.body().as_slice(), b"<h1>403 Forbidden</h1><p>Directory listing is disabled.</p>");
}

#[test]
fn directory_with_default_file_serves_it() {
    let h = StaticFileHandler::new("/srv", false, "index.html".to_string());
    assert_eq!(served(h.plan("/docs/", PathKind::Directory, true, false)), Some("/srv/docs/index.html".to_string()));
    let listing = StaticFileHandler::new("/srv", true, "home.htm".to_string());
    assert!(matches!(listing.plan("/docs", PathKind::Directory, false, false), StaticPlan::ListDirectory(ref d) if d == "/srv/docs"));
    assert_eq!(served(listing.plan("/docs", PathKind::Directory, true, false)), Some("/srv/docs/home.htm".to_string()));
}

#[test]
fn listing_puts_directories_first_then_names() {
    let sorted = sort_entries(vec![
        entry("zeta.txt", false),
        entry("beta", true),
        entry("alpha.txt", false),
        entry("Alpha", true),
        entry("gamma", true),
    ]);
    let names: Vec<(&str, bool)> = sorted.iter().map(|e| (e.name.as_str(), e.is_dir)).collect();
    assert_eq!(names, vec![("Alpha", true), ("beta", true), ("gamma", true), ("alpha.txt", false), ("zeta.txt", false)]);
}

#[test]
fn listing_page_lists_entries_in_order() {
    let h = StaticFileHandler::new("/srv", true, "index.html".to_string());
    let r = h.list_directory("/docs/", vec![entry("b.txt", false), entry("sub", true), entry("a.txt", false)]);
    assert_eq!(r.status(), 200);
    assert_eq!(r.header_value("content-type"), Some("text/html".to_string()));
    let body = String::from_utf8(r.body().clone()).unwrap();
    let sub = body.find("<a href=\"/docs/sub/\">sub</a></td><td>Directory").unwrap();
    let a = body.find("<a href=\"/docs/a.txt\">a.txt</a></td><td>File").unwrap();
    let b = body.find("<a href=\"/docs/b.txt\">b.txt</a>").unwrap();
    assert!(sub < a && a < b);
    assert!(body.contains("<title>Directory listing for /docs/</title>"));
    assert!(body.contains("<a href=\"..\">..</a></td><td>Parent Directory"));
}

#[test]
fn root_listing_has_no_parent_link() {
    let page = render_listing("/", &vec![entry("x", false)]);
    assert!(!page.contains("Parent Directory"));
    assert!(page.contains("<tr><td><a href=\"/x\">x</a></td><td>File</td></tr>\n"));
    assert!(page.starts_with("<!DOCTYPE html>\n<html>\n<head>\n<title>Directory listing for /</title>\n<style>\n"));
    assert!(page.ends_with("</table>\n</body>\n</html>"));
}

#[test]
fn empty_listing() {
    let page = render_listing("/empty", &vec![]);
    assert!(page.contains("<tr><th>Name</th><th>Type</th></tr>\n<tr><td><a href=\"..\">..</a></td><td>Parent Directory</td></tr>\n</table>"));
}

#[test]
fn spa_falls_back_to_index_when_present() {
    let h = StaticFileHandler::new("/srv", false, "index.html".to_string()).with_spa(true);
    assert_eq!(served(h.plan("/app.js", PathKind::Missing, false, true)), Some("/srv/index.html".to_string()));
    assert!(matches!(h.plan("/app.js", PathKind::Missing, false, false), StaticPlan::NotFound));
    assert_eq!(h.spa_index_path(), "/srv/index.html");
}

#[test]
fn missing_file_without_spa_is_not_found() {
    let h = StaticFileHandler::new("/srv", false, "index.html".to_string());
    assert!(matches!(h.plan("/app.js", PathKind::Missing, false, true), StaticPlan::NotFound));
    assert_eq!(served(h.plan("/css/site.css", PathKind::File, false, false)), Some("/srv/css/site.css".to_string()));
    assert_eq!(h.get_file_path("/../x"), "/srv/x");
    assert_eq!(h.default_file_path("/srv/d"), "/srv/d/index.html");
}
