use std::collections::HashMap;

use auth_core::analyze::{
    contains_text, get_ident, parse, router_read_recursive, scan_handlers, scan_routes, scan_setup,
    scans_for, AlxFileType, AnalyzeOptions, Arguments, Bound, Call, DirEntry, Directory, Expr,
    FileScanResult, FnArg, Function, GenericArg, GenericParam, Handler, HandlerInput, MethodCall,
    Path, Route, ScanError, ScanResult, Segment, SourceFile, Statement, Type,
};

fn seg(ident: &str) -> Segment {
    Segment { ident: ident.to_string(), arguments: Arguments::Absent }
}

fn path(idents: &[&str]) -> Path {
    Path { leading_colon: false, segments: idents.iter().map(|i| seg(i)).collect() }
}

fn typed(outer: &[&str], inner: &str) -> Type {
    let mut p = path(outer);
    p.segments.last_mut().unwrap().arguments =
        Arguments::AngleBracketed(vec![GenericArg::Type(Type::Path(path(&[inner])))]);
    Type::Path(p)
}

fn call(func: &[&str], args: Vec<Expr>) -> Expr {
    Expr::Call(Box::new(Call { func: Expr::Path(path(func)), args }))
}

fn method(receiver: Expr, name: &str, args: Vec<Expr>) -> MethodCall {
    MethodCall { receiver, method: name.to_string(), args }
}

fn lit(s: &str) -> Expr {
    Expr::Str(s.to_string())
}

/// `handler::<name>::<Authentication<..>>`
fn target(name: &str) -> Expr {
    let mut p = path(&["handler", name]);
    p.segments[1].arguments =
        Arguments::AngleBracketed(vec![GenericArg::Type(Type::Path(path(&["Authentication"])))]);
    Expr::Path(p)
}

/// `web::resource(<at>).route(web::<verb>().to(handler::<name>::<Authentication<..>>))`
fn resource(at: &str, verb: &str, name: &str) -> MethodCall {
    let to = method(call(&["web", verb], vec![]), "to", vec![target(name)]);
    method(call(&["web", "resource"], vec![lit(at)]), "route", vec![Expr::MethodCall(Box::new(to))])
}

/// `cfg.service(<service>);`
fn registered(service: MethodCall) -> Statement {
    Statement::Semi(Expr::MethodCall(Box::new(method(
        Expr::Path(path(&["cfg"])),
        "service",
        vec![Expr::MethodCall(Box::new(service))],
    ))))
}

fn route(at: &str, verb: &str, name: &str, middleware: Option<Vec<&str>>) -> Route {
    Route {
        path: at.to_string(),
        method: verb.to_string(),
        handler_name: name.to_string(),
        service: Some("Authentication".to_string()),
        middleware: middleware.map(|m| m.iter().map(|w| w.to_string()).collect()),
    }
}

#[test]
fn route_is_read_off_a_resource() {
    let mut found = Route::default();
    let mut level = 0;
    let mut stuff = HashMap::new();
    scan_setup(&resource("/auth/login", "post", "login"), &mut found, &mut level, &mut stuff);
    assert_eq!(found, route("/auth/login", "post", "login", None));
    assert_eq!(level, 1);
    assert_eq!(stuff.len(), 1);
    assert_eq!(stuff[&0], vec!["/auth/login", "post", "Authentication", "login"]);
    assert!(Route::default().is_blank());
    assert!(!found.is_blank());
}

#[test]
fn wrappers_are_read_as_middleware() {
    // web::resource("/auth/set-otp").route(..).wrap(auth_guard.clone()).wrap(limiter)
    let cloned = method(Expr::Path(path(&["auth_guard"])), "clone", vec![]);
    let wrapped =
        method(Expr::MethodCall(Box::new(resource("/auth/set-otp", "get", "set_otp_secret"))), "wrap", vec![
            Expr::MethodCall(Box::new(cloned)),
        ]);
    let twice = method(Expr::MethodCall(Box::new(wrapped)), "wrap", vec![Expr::Path(path(&["limiter"]))]);
    let mut found = Route::default();
    let mut level = 0;
    let mut stuff = HashMap::new();
    scan_setup(&twice, &mut found, &mut level, &mut stuff);
    assert_eq!(
        found,
        route("/auth/set-otp", "get", "set_otp_secret", Some(vec!["auth_guard", "limiter"]))
    );
    assert_eq!(level, 3);
    assert_eq!(stuff[&0], vec!["/auth/set-otp", "get", "Authentication", "set_otp_secret"]);
    assert_eq!(stuff[&1], vec!["auth_guard"]);
    assert_eq!(stuff[&2], vec!["limiter"]);
}

#[test]
fn handler_without_a_service_has_none() {
    let to = method(call(&["web", "post"], vec![]), "to", vec![Expr::Path(path(&["handler", "verify_otp"]))]);
    let r = method(call(&["web", "resource"], vec![lit("/auth/verify-otp")]), "route", vec![
        Expr::MethodCall(Box::new(to)),
    ]);
    let mut found = Route::default();
    let mut level = 0;
    let mut stuff = HashMap::new();
    scan_setup(&r, &mut found, &mut level, &mut stuff);
    assert_eq!(level, 1);
    assert_eq!(stuff[&0], vec!["/auth/verify-otp", "post", "", "verify_otp"]);
    assert_eq!(
        found,
        Route {
            path: "/auth/verify-otp".to_string(),
            method: "post".to_string(),
            handler_name: "verify_otp".to_string(),
            service: None,
            middleware: None,
        }
    );
}

#[test]
fn only_services_registered_on_cfg_are_read() {
    let statements = vec![
        Statement::Other,
        Statement::Semi(call(&["println"], vec![])),
        registered(resource("/auth/login", "post", "login")),
        Statement::Semi(Expr::MethodCall(Box::new(method(
            Expr::Path(path(&["cfg"])),
            "app_data",
            vec![call(&["Data", "new"], vec![Expr::Path(path(&["service"]))])],
        )))),
        Statement::Semi(Expr::MethodCall(Box::new(method(
            Expr::Path(path(&["other"])),
            "service",
            vec![Expr::MethodCall(Box::new(resource("/x", "get", "x")))],
        )))),
        registered(resource("/auth/register", "post", "start_registration")),
        registered(method(Expr::Other, "nothing", vec![])),
    ];
    assert_eq!(
        scan_routes(&statements),
        vec![
            route("/auth/login", "post", "login", None),
            route("/auth/register", "post", "start_registration", None),
        ]
    );
}

fn handler_fn(name: &str, generics: Vec<GenericParam>, inputs: Vec<FnArg>) -> Function {
    Function { name: name.to_string(), generics, inputs, statements: vec![] }
}

#[test]
fn handlers_are_read_off_functions() {
    let bound = GenericParam::Type {
        ident: "T".to_string(),
        bounds: vec![Bound::Trait(path(&["ServiceContract"]))],
    };
    let functions = vec![
        handler_fn(
            "login",
            vec![bound],
            vec![
                FnArg::Typed(typed(&["web", "Json"], "Credentials")),
                FnArg::Typed(typed(&["web", "Data"], "T")),
                FnArg::Typed(Type::Other),
                FnArg::Receiver,
            ],
        ),
        handler_fn(
            "health",
            vec![GenericParam::Type { ident: "U".to_string(), bounds: vec![] }],
            vec![FnArg::Typed(Type::Path(path(&["HttpRequest"])))],
        ),
        handler_fn("plain", vec![], vec![]),
    ];
    let expected = vec![
        Handler {
            name: "login".to_string(),
            inputs: vec![
                HandlerInput { ext_type: "Json".to_string(), data_type: "Credentials".to_string() },
                HandlerInput { ext_type: "Data".to_string(), data_type: "T".to_string() },
            ],
            bound: Some("T: ServiceContract".to_string()),
        },
        Handler {
            name: "health".to_string(),
            inputs: vec![HandlerInput {
                ext_type: "HttpRequest".to_string(),
                data_type: String::new(),
            }],
            bound: Some("U".to_string()),
        },
        Handler { name: "plain".to_string(), inputs: vec![], bound: None },
    ];
    assert_eq!(scan_handlers(&functions), Ok(expected));
}

#[test]
fn syntax_that_is_not_read_fails_the_scan() {
    let lifetime = handler_fn("f", vec![GenericParam::Lifetime], vec![]);
    assert_eq!(scan_handlers(&vec![lifetime]), Err(ScanError::Unsupported));
    let constant = handler_fn("f", vec![GenericParam::Const], vec![]);
    assert_eq!(scan_handlers(&vec![constant]), Err(ScanError::Unsupported));
    let bound = GenericParam::Type { ident: "T".to_string(), bounds: vec![Bound::Lifetime] };
    assert_eq!(scan_handlers(&vec![handler_fn("f", vec![bound], vec![])]), Err(ScanError::Unsupported));
    let mut funky = path(&["web", "Json"]);
    funky.segments[1].arguments = Arguments::AngleBracketed(vec![GenericArg::Other]);
    let f = handler_fn("f", vec![], vec![FnArg::Typed(Type::Path(funky))]);
    assert_eq!(scan_handlers(&vec![handler_fn("ok", vec![], vec![]), f]), Err(ScanError::Unsupported));
    let mut funky = path(&["web", "Json"]);
    funky.segments[1].arguments = Arguments::AngleBracketed(vec![GenericArg::Type(Type::Other)]);
    let f = handler_fn("f", vec![], vec![FnArg::Typed(Type::Path(funky))]);
    assert_eq!(scan_handlers(&vec![f]), Err(ScanError::Unsupported));
}

#[test]
fn file_is_scanned_by_its_kind() {
    let mut setup = handler_fn("routes", vec![], vec![]);
    setup.statements = vec![registered(resource("/auth/login", "post", "login"))];
    let mut second = handler_fn("more", vec![], vec![]);
    second.statements = vec![registered(resource("/ignored", "get", "ignored"))];
    let functions = vec![setup, second];
    assert_eq!(
        parse(&functions, AlxFileType::Setup),
        Ok(FileScanResult::Setup(vec![route("/auth/login", "post", "login", None)]))
    );
    match parse(&functions, AlxFileType::Handler) {
        Ok(FileScanResult::Handlers(h)) => {
            assert_eq!(h.len(), 2);
            assert_eq!(h[0].name, "routes");
            assert_eq!(h[1].name, "more");
        }
        other => panic!("no handlers: {:?}", other),
    }
    assert_eq!(parse(&vec![], AlxFileType::Setup), Ok(FileScanResult::Setup(vec![])));
}

#[test]
fn path_is_an_ident_only_when_it_is_bare() {
    assert_eq!(get_ident(&path(&["guard"])), Some("guard".to_string()));
    assert_eq!(get_ident(&path(&["a", "b"])), None);
    assert_eq!(get_ident(&path(&[])), None);
    let mut rooted = path(&["guard"]);
    rooted.leading_colon = true;
    assert_eq!(get_ident(&rooted), None);
    let mut generic = path(&["guard"]);
    generic.segments[0].arguments = Arguments::Parenthesized;
    assert_eq!(get_ident(&generic), None);
}

#[test]
fn files_are_chosen_by_their_names() {
    assert_eq!(scans_for("setup.rs"), (true, false));
    assert_eq!(scans_for("handler.rs"), (false, true));
    assert_eq!(scans_for("my_handlers_setup.rs"), (true, true));
    assert_eq!(scans_for("domain.rs"), (false, false));
    assert_eq!(scans_for("setu"), (false, false));
    assert!(contains_text("abc", ""));
    assert!(contains_text("", ""));
    assert!(!contains_text("", "a"));
    assert!(contains_text("xxsetup", "setup"));
    assert!(!contains_text("set-up", "setup"));
    assert!(contains_text("héllo wörld", "wör"));
}

#[test]
fn results_are_noted_per_directory() {
    let mut scan = ScanResult::new();
    let dir = "src/api/router/auth".to_string();
    scan.record(&dir, AlxFileType::Setup, FileScanResult::Setup(vec![route("/a", "get", "a", None)]));
    scan.record(&dir, AlxFileType::Handler, FileScanResult::Handlers(vec![]));
    // A result of the other kind is not noted.
    scan.record(&dir, AlxFileType::Handler, FileScanResult::Setup(vec![route("/x", "get", "x", None)]));
    scan.record(&"src/other".to_string(), AlxFileType::Setup, FileScanResult::Setup(vec![]));
    // What is noted later for a directory replaces what was noted before.
    scan.record(&dir, AlxFileType::Setup, FileScanResult::Setup(vec![route("/b", "post", "b", None)]));
    assert_eq!(
        scan.routes,
        vec![(dir.clone(), vec![route("/b", "post", "b", None)]), ("src/other".to_string(), vec![])]
    );
    assert_eq!(scan.handlers, vec![(dir, vec![])]);
    let options = AnalyzeOptions { format: Some("json".to_string()) };
    assert_eq!(options.format.as_deref(), Some("json"));
}

fn setup_file(name: &str, at: &str, handler: &str) -> DirEntry {
    let mut f = handler_fn("routes", vec![], vec![]);
    f.statements = vec![registered(resource(at, "post", handler))];
    DirEntry::File(SourceFile { name: name.to_string(), functions: vec![f] })
}

#[test]
fn directories_are_read_in_depth() {
    let auth = Directory {
        path: "router/auth".to_string(),
        entries: vec![
            setup_file("setup.rs", "/auth/login", "login"),
            DirEntry::File(SourceFile {
                name: "handler.rs".to_string(),
                functions: vec![handler_fn("login", vec![], vec![])],
            }),
            DirEntry::File(SourceFile {
                name: "domain.rs".to_string(),
                functions: vec![handler_fn("ignored", vec![GenericParam::Lifetime], vec![])],
            }),
        ],
    };
    let root = Directory {
        path: "router".to_string(),
        entries: vec![
            DirEntry::Directory(auth),
            setup_file("setup.rs", "/health", "health"),
            DirEntry::Directory(Directory { path: "router/empty".to_string(), entries: vec![] }),
        ],
    };
    let mut scan = ScanResult::new();
    assert_eq!(router_read_recursive(&root, &mut scan), Ok(()));
    assert_eq!(
        scan.routes,
        vec![
            ("router/auth".to_string(), vec![route("/auth/login", "post", "login", None)]),
            ("router".to_string(), vec![route("/health", "post", "health", None)]),
        ]
    );
    assert_eq!(
        scan.handlers,
        vec![(
            "router/auth".to_string(),
            vec![Handler { name: "login".to_string(), inputs: vec![], bound: None }]
        )]
    );
}

#[test]
fn file_that_cannot_be_scanned_fails_the_reading() {
    let root = Directory {
        path: "router".to_string(),
        entries: vec![
            setup_file("setup.rs", "/a", "a"),
            DirEntry::File(SourceFile {
                name: "handler.rs".to_string(),
                functions: vec![handler_fn("f", vec![GenericParam::Const], vec![])],
            }),
            setup_file("other_setup.rs", "/b", "b"),
        ],
    };
    let mut scan = ScanResult::new();
    assert_eq!(router_read_recursive(&root, &mut scan), Err(ScanError::Unsupported));
    assert_eq!(scan.routes, vec![("router".to_string(), vec![route("/a", "post", "a", None)])]);
}

#[test]
fn guarded_route_is_two_levels_deep() {
    // web::resource("/auth/set-otp")
    //     .route(web::get().to(handler::set_otp_secret::<Authentication<R, C, E>>))
    //     .wrap(auth_guard)
    let wrapped = method(
        Expr::MethodCall(Box::new(resource("/auth/set-otp", "get", "set_otp_secret"))),
        "wrap",
        vec![Expr::Path(path(&["auth_guard"]))],
    );
    let mut found = Route::default();
    let mut level = 0;
    let mut stuff = HashMap::new();
    scan_setup(&wrapped, &mut found, &mut level, &mut stuff);
    assert_eq!(found, route("/auth/set-otp", "get", "set_otp_secret", Some(vec!["auth_guard"])));
    assert_eq!(level, 2);
    assert_eq!(stuff[&1], vec!["auth_guard"]);
    assert_eq!(stuff[&0], vec!["/auth/set-otp", "get", "Authentication", "set_otp_secret"]);
    assert_eq!(stuff.len(), 2);
}

#[test]
fn two_wrappers_are_kept_innermost_first() {
    // web::resource("/a").route(web::post().to(handler::h)).wrap(g1).wrap(g2)
    let to = method(call(&["web", "post"], vec![]), "to", vec![Expr::Path(path(&["handler", "h"]))]);
    let routed = method(call(&["web", "resource"], vec![lit("/a")]), "route", vec![
        Expr::MethodCall(Box::new(to)),
    ]);
    let once = method(Expr::MethodCall(Box::new(routed)), "wrap", vec![Expr::Path(path(&["g1"]))]);
    let twice = method(Expr::MethodCall(Box::new(once)), "wrap", vec![Expr::Path(path(&["g2"]))]);
    let mut found = Route::default();
    let mut level = 0;
    let mut stuff = HashMap::new();
    scan_setup(&twice, &mut found, &mut level, &mut stuff);
    assert_eq!(
        found,
        Route {
            path: "/a".to_string(),
            method: "post".to_string(),
            handler_name: "h".to_string(),
            service: None,
            middleware: Some(vec!["g1".to_string(), "g2".to_string()]),
        }
    );
    assert_eq!(level, 3);
    assert_eq!(stuff[&0], vec!["/a", "post", "", "h"]);
    assert_eq!(stuff[&1], vec!["g1"]);
    assert_eq!(stuff[&2], vec!["g2"]);
}

#[test]
fn scan_goes_on_from_the_depth_and_the_reading_it_is_given() {
    let mut found = Route::default();
    let mut level = 7;
    let mut stuff = HashMap::new();
    stuff.insert(7, vec!["before".to_string()]);
    stuff.insert(3, vec!["other".to_string()]);
    scan_setup(&resource("/a", "get", "h"), &mut found, &mut level, &mut stuff);
    assert_eq!(level, 8);
    assert_eq!(stuff[&7], vec!["before", "/a", "get", "Authentication", "h"]);
    assert_eq!(stuff[&3], vec!["other"]);
    let mut level = usize::MAX;
    scan_setup(&resource("/a", "get", "h"), &mut found, &mut level, &mut stuff);
    assert_eq!(level, usize::MAX);
}
