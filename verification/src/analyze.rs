//! Reading routes and handlers off parsed source: which handler serves which
//! path and method behind which middleware, and what each handler extracts
//! from a request. The scan works on the few shapes of syntax it reads; how
//! source text becomes those shapes is the caller's business.

use crate::model::{same_text, text_opt};
use std::collections::HashMap;
use vstd::prelude::*;

verus! {

/// A path such as `web::Json<Credentials>`.
#[derive(Debug, PartialEq, Eq)]
pub struct Path {
    pub leading_colon: bool,
    pub segments: Vec<Segment>,
}

/// One segment of a path, with the arguments it is given.
#[derive(Debug, PartialEq, Eq)]
pub struct Segment {
    pub ident: String,
    pub arguments: Arguments,
}

/// The arguments of a path segment.
#[derive(Debug, PartialEq, Eq)]
pub enum Arguments {
    Absent,
    AngleBracketed(Vec<GenericArg>),
    Parenthesized,
}

/// One argument between angle brackets; only types are read.
#[derive(Debug, PartialEq, Eq)]
pub enum GenericArg {
    Type(Type),
    Other,
}

/// A type; only paths are read.
#[derive(Debug, PartialEq, Eq)]
pub enum Type {
    Path(Path),
    Other,
}

/// A call of a method on a receiver, as in `receiver.method(args)`.
#[derive(Debug, PartialEq, Eq)]
pub struct MethodCall {
    pub receiver: Expr,
    pub method: String,
    pub args: Vec<Expr>,
}

/// A call of a function, as in `func(args)`.
#[derive(Debug, PartialEq, Eq)]
pub struct Call {
    pub func: Expr,
    pub args: Vec<Expr>,
}

/// An expression; only calls, paths and string literals are read.
#[derive(Debug, PartialEq, Eq)]
pub enum Expr {
    MethodCall(Box<MethodCall>),
    Call(Box<Call>),
    Path(Path),
    Str(String),
    Other,
}

/// A bound of a type parameter.
#[derive(Debug, PartialEq, Eq)]
pub enum Bound {
    Trait(Path),
    Lifetime,
}

/// A generic parameter of a function.
#[derive(Debug, PartialEq, Eq)]
pub enum GenericParam {
    Type { ident: String, bounds: Vec<Bound> },
    Lifetime,
    Const,
}

/// An argument of a function.
#[derive(Debug, PartialEq, Eq)]
pub enum FnArg {
    Receiver,
    Typed(Type),
}

/// A statement of a function body: an expression that ends in a semicolon,
/// or anything else.
#[derive(Debug, PartialEq, Eq)]
pub enum Statement {
    Semi(Expr),
    Other,
}

/// A function item of a source file.
#[derive(Debug, PartialEq, Eq)]
pub struct Function {
    pub name: String,
    pub generics: Vec<GenericParam>,
    pub inputs: Vec<FnArg>,
    pub statements: Vec<Statement>,
}

/// What a handler extracts from a request: the extractor and the type it
/// carries.
#[derive(Debug, PartialEq, Eq)]
pub struct HandlerInput {
    pub ext_type: String,
    pub data_type: String,
}

pub struct HandlerInputView {
    pub ext_type: Seq<char>,
    pub data_type: Seq<char>,
}

impl View for HandlerInput {
    type V = HandlerInputView;

    open spec fn view(&self) -> HandlerInputView {
        HandlerInputView { ext_type: self.ext_type@, data_type: self.data_type@ }
    }
}

/// A handler: the function's name, what it extracts, and the service it is
/// bound to.
#[derive(Debug, PartialEq, Eq)]
pub struct Handler {
    pub name: String,
    pub inputs: Vec<HandlerInput>,
    /// The first generic parameter with its first bound, as in `T: Service`.
    pub bound: Option<String>,
}

pub struct HandlerView {
    pub name: Seq<char>,
    pub inputs: Seq<HandlerInputView>,
    pub bound: Option<Seq<char>>,
}

pub open spec fn inputs_view(v: Seq<HandlerInput>) -> Seq<HandlerInputView> {
    v.map_values(|i: HandlerInput| i@)
}

impl View for Handler {
    type V = HandlerView;

    open spec fn view(&self) -> HandlerView {
        HandlerView { name: self.name@, inputs: inputs_view(self.inputs@), bound: text_opt(self.bound) }
    }
}

pub open spec fn handlers_view(v: Seq<Handler>) -> Seq<HandlerView> {
    v.map_values(|h: Handler| h@)
}

/// The syntax was of a shape that the scan does not read.
#[derive(Clone, Copy, Debug, PartialEq, Eq, Structural)]
pub enum ScanError {
    Unsupported,
}

/// Which kind of file a scan is for.
#[derive(Clone, Copy, Debug, PartialEq, Eq, Structural)]
pub enum AlxFileType {
    Setup,
    Handler,
}

/// How the result of an analysis is written out.
#[derive(Debug, PartialEq, Eq)]
pub struct AnalyzeOptions {
    /// Accepted values are "json" | "j" for JSON, "yaml" | "y" for Yaml.
    /// Both are written by default.
    pub format: Option<String>,
}

fn is_text(s: &String, literal: &str) -> (r: bool)
    ensures
        r == (s@ == literal@),
{
    let other = String::from_str(literal);
    same_text(s, &other)
}

/// The ident that a path consists of: the path has no leading colon and one
/// segment, and the segment has no arguments.
pub open spec fn single_ident(path: Path) -> Option<Seq<char>> {
    if !path.leading_colon && path.segments@.len() == 1 && path.segments@[0].arguments
        is Absent {
        Some(path.segments@[0].ident@)
    } else {
        None
    }
}

/// The ident that a path consists of, if it is one ident.
pub fn get_ident(path: &Path) -> (r: Option<String>)
    ensures
        text_opt(r) == single_ident(*path),
{
    if !path.leading_colon && path.segments.len() == 1 {
        match &path.segments[0].arguments {
            Arguments::Absent => Some(path.segments[0].ident.clone()),
            _ => None,
        }
    } else {
        None
    }
}

/// What one segment of an argument's type says of the handler's input.
pub enum Reading {
    /// The segment is the `web` prefix and says nothing.
    Skipped,
    Input(HandlerInputView),
    Unsupported,
}

/// The input that a segment stands for: the segment names the extractor,
/// and the first segment of its first angle-bracketed argument names the
/// type that is extracted. A segment without angle brackets extracts a type
/// without a name.
pub open spec fn reading(segment: Segment) -> Reading {
    if segment.ident@ == "web"@ {
        Reading::Skipped
    } else {
        match segment.arguments {
            Arguments::AngleBracketed(args) => {
                if args@.len() == 0 {
                    Reading::Unsupported
                } else {
                    match args@[0] {
                        GenericArg::Type(Type::Path(p)) => {
                            if p.segments@.len() == 0 {
                                Reading::Unsupported
                            } else {
                                Reading::Input(
                                    HandlerInputView {
                                        ext_type: segment.ident@,
                                        data_type: p.segments@[0].ident@,
                                    },
                                )
                            }
                        },
                        _ => Reading::Unsupported,
                    }
                }
            },
            _ => Reading::Input(
                HandlerInputView { ext_type: segment.ident@, data_type: Seq::empty() },
            ),
        }
    }
}

/// The inputs read so far, with those of the first `n` segments of a type
/// added; nothing once a segment was not supported.
pub open spec fn read_segments(
    segments: Seq<Segment>,
    so_far: Option<Seq<HandlerInputView>>,
    n: nat,
) -> Option<Seq<HandlerInputView>>
    decreases n,
{
    if n == 0 || n > segments.len() {
        so_far
    } else {
        match read_segments(segments, so_far, (n - 1) as nat) {
            Some(inputs) => match reading(segments[n - 1]) {
                Reading::Skipped => Some(inputs),
                Reading::Input(i) => Some(inputs.push(i)),
                Reading::Unsupported => None,
            },
            None => None,
        }
    }
}

/// The inputs of the first `n` arguments of a function. Only arguments whose
/// type is a path are read.
pub open spec fn read_inputs(args: Seq<FnArg>, n: nat) -> Option<Seq<HandlerInputView>>
    decreases n,
{
    if n == 0 || n > args.len() {
        Some(Seq::empty())
    } else {
        match args[n - 1] {
            FnArg::Typed(Type::Path(p)) => read_segments(
                p.segments@,
                read_inputs(args, (n - 1) as nat),
                p.segments@.len(),
            ),
            _ => read_inputs(args, (n - 1) as nat),
        }
    }
}

/// The bound of a handler: its first generic parameter, followed, if the
/// parameter has bounds, by a colon and the first segment of the first
/// bound. Only a type parameter whose first bound is a trait is supported.
pub open spec fn read_bound(generics: Seq<GenericParam>) -> Option<Option<Seq<char>>> {
    if generics.len() == 0 {
        Some(None)
    } else {
        match generics[0] {
            GenericParam::Type { ident, bounds } => {
                if bounds@.len() == 0 {
                    Some(Some(ident@))
                } else {
                    match bounds@[0] {
                        Bound::Trait(path) => {
                            if path.segments@.len() == 0 {
                                None
                            } else {
                                Some(Some(ident@ + ": "@ + path.segments@[0].ident@))
                            }
                        },
                        Bound::Lifetime => None,
                    }
                }
            },
            _ => None,
        }
    }
}

/// The handler that a function is, if all of it is supported.
pub open spec fn read_handler(f: Function) -> Option<HandlerView> {
    match (read_bound(f.generics@), read_inputs(f.inputs@, f.inputs@.len())) {
        (Some(bound), Some(inputs)) => Some(HandlerView { name: f.name@, inputs, bound }),
        _ => None,
    }
}

/// The handlers that the first `n` functions are.
pub open spec fn read_handlers(functions: Seq<Function>, n: nat) -> Option<Seq<HandlerView>>
    decreases n,
{
    if n == 0 || n > functions.len() {
        Some(Seq::empty())
    } else {
        match (read_handlers(functions, (n - 1) as nat), read_handler(functions[n - 1])) {
            (Some(handlers), Some(h)) => Some(handlers.push(h)),
            _ => None,
        }
    }
}

fn scan_segment(segment: &Segment, inputs: &mut Vec<HandlerInput>) -> (ok: bool)
    ensures
        match reading(*segment) {
            Reading::Skipped => ok && inputs_view(final(inputs)@) == inputs_view(old(inputs)@),
            Reading::Input(i) => ok && inputs_view(final(inputs)@) == inputs_view(
                old(inputs)@,
            ).push(i),
            Reading::Unsupported => !ok,
        },
{
    let ghost before = inputs_view(inputs@);
    if is_text(&segment.ident, "web") {
        return true;
    }
    let ext_type = segment.ident.clone();
    let data_type = match &segment.arguments {
        Arguments::AngleBracketed(args) => {
            if args.len() == 0 {
                return false;
            }
            match &args[0] {
                GenericArg::Type(Type::Path(p)) => {
                    if p.segments.len() == 0 {
                        return false;
                    }
                    p.segments[0].ident.clone()
                },
                _ => {
                    return false;
                },
            }
        },
        _ => String::new(),
    };
    inputs.push(HandlerInput { ext_type, data_type });
    proof {
        assert(inputs_view(inputs@) =~= before.push(
            HandlerInputView { ext_type: ext_type@, data_type: data_type@ },
        ));
    }
    true
}

fn scan_inputs(args: &Vec<FnArg>) -> (r: Option<Vec<HandlerInput>>)
    ensures
        match r {
            Some(inputs) => read_inputs(args@, args@.len()) == Some(inputs_view(inputs@)),
            None => read_inputs(args@, args@.len()) is None,
        },
{
    let mut inputs: Vec<HandlerInput> = Vec::new();
    let mut ok = true;
    let mut i: usize = 0;
    proof {
        assert(inputs_view(inputs@) =~= Seq::empty());
    }
    while i < args.len()
        invariant
            i <= args.len(),
            ok ==> read_inputs(args@, i as nat) == Some(inputs_view(inputs@)),
            !ok ==> read_inputs(args@, i as nat) is None,
        decreases args.len() - i,
    {
        match &args[i] {
            FnArg::Typed(Type::Path(p)) => {
                let ghost start = read_inputs(args@, i as nat);
                let mut j: usize = 0;
                while j < p.segments.len()
                    invariant
                        j <= p.segments.len(),
                        ok ==> read_segments(p.segments@, start, j as nat) == Some(
                            inputs_view(inputs@),
                        ),
                        !ok ==> read_segments(p.segments@, start, j as nat) is None,
                    decreases p.segments.len() - j,
                {
                    if ok {
                        ok = scan_segment(&p.segments[j], &mut inputs);
                    }
                    j = j + 1;
                }
            },
            _ => {},
        }
        i = i + 1;
    }
    if ok {
        Some(inputs)
    } else {
        None
    }
}

fn scan_bound(generics: &Vec<GenericParam>) -> (r: Option<Option<String>>)
    ensures
        match r {
            Some(bound) => read_bound(generics@) == Some(text_opt(bound)),
            None => read_bound(generics@) is None,
        },
{
    if generics.len() == 0 {
        return Some(None);
    }
    match &generics[0] {
        GenericParam::Type { ident, bounds } => {
            if bounds.len() == 0 {
                Some(Some(ident.clone()))
            } else {
                match &bounds[0] {
                    Bound::Trait(path) => {
                        if path.segments.len() == 0 {
                            None
                        } else {
                            let text = ident.clone().concat(": ").concat(
                                path.segments[0].ident.as_str(),
                            );
                            Some(Some(text))
                        }
                    },
                    Bound::Lifetime => None,
                }
            }
        },
        _ => None,
    }
}

/// The handlers that the functions of a file are, in the order of the
/// functions: each with its name, its bound and its inputs. A function with
/// syntax that the scan does not read fails the scan.
pub fn scan_handlers(functions: &Vec<Function>) -> (r: Result<Vec<Handler>, ScanError>)
    ensures
        match r {
            Ok(handlers) => read_handlers(functions@, functions@.len()) == Some(
                handlers_view(handlers@),
            ),
            Err(_) => read_handlers(functions@, functions@.len()) is None,
        },
{
    let mut handlers: Vec<Handler> = Vec::new();
    let mut ok = true;
    let mut i: usize = 0;
    proof {
        assert(handlers_view(handlers@) =~= Seq::empty());
    }
    while i < functions.len()
        invariant
            i <= functions.len(),
            ok ==> read_handlers(functions@, i as nat) == Some(handlers_view(handlers@)),
            !ok ==> read_handlers(functions@, i as nat) is None,
        decreases functions.len() - i,
    {
        let ghost before = handlers_view(handlers@);
        let bound = scan_bound(&functions[i].generics);
        let inputs = scan_inputs(&functions[i].inputs);
        match (bound, inputs) {
            (Some(bound), Some(inputs)) => {
                if ok {
                    let handler = Handler { name: functions[i].name.clone(), inputs, bound };
                    proof {
                        assert(read_handler(functions@[i as int]) == Some(handler@));
                    }
                    handlers.push(handler);
                    proof {
                        assert(handlers_view(handlers@) =~= before.push(
                            read_handler(functions@[i as int])->0,
                        ));
                    }
                }
            },
            _ => {
                ok = false;
            },
        }
        i = i + 1;
    }
    if ok {
        Ok(handlers)
    } else {
        Err(ScanError::Unsupported)
    }
}

/// One route of a service: where it is mounted, which method it answers,
/// which handler of which service serves it, and what it is wrapped in.
#[derive(Debug, PartialEq, Eq)]
pub struct Route {
    pub path: String,
    pub method: String,
    pub handler_name: String,
    pub service: Option<String>,
    pub middleware: Option<Vec<String>>,
}

pub struct RouteView {
    pub path: Seq<char>,
    pub method: Seq<char>,
    pub handler_name: Seq<char>,
    pub service: Option<Seq<char>>,
    pub middleware: Option<Seq<Seq<char>>>,
}

pub open spec fn names_view(v: Seq<String>) -> Seq<Seq<char>> {
    v.map_values(|s: String| s@)
}

impl View for Route {
    type V = RouteView;

    open spec fn view(&self) -> RouteView {
        RouteView {
            path: self.path@,
            method: self.method@,
            handler_name: self.handler_name@,
            service: text_opt(self.service),
            middleware: match self.middleware {
                Some(m) => Some(names_view(m@)),
                None => None,
            },
        }
    }
}

pub open spec fn routes_view(v: Seq<Route>) -> Seq<RouteView> {
    v.map_values(|r: Route| r@)
}

/// The route of which nothing is known yet.
pub open spec fn blank_route() -> RouteView {
    RouteView {
        path: Seq::empty(),
        method: Seq::empty(),
        handler_name: Seq::empty(),
        service: None,
        middleware: None,
    }
}

impl Default for Route {
    fn default() -> (r: Route)
        ensures
            r@ == blank_route(),
    {
        Route {
            path: String::new(),
            method: String::new(),
            handler_name: String::new(),
            service: None,
            middleware: None,
        }
    }
}

impl Route {
    /// Whether nothing is known of the route.
    pub fn is_blank(&self) -> (r: bool)
        ensures
            r == (self@ == blank_route()),
    {
        let blank = self.path.as_str().is_empty() && self.method.as_str().is_empty()
            && self.handler_name.as_str().is_empty() && self.service.is_none()
            && self.middleware.is_none();
        proof {
            if blank {
                assert(self@.path =~= blank_route().path);
                assert(self@.method =~= blank_route().method);
                assert(self@.handler_name =~= blank_route().handler_name);
            }
        }
        blank
    }
}

/// The route with the path that a call names: the first argument, if it is
/// a string.
pub open spec fn with_path(args: Seq<Expr>, route: RouteView) -> RouteView {
    if args.len() > 0 {
        match args[0] {
            Expr::Str(path) => RouteView { path: path@, ..route },
            _ => route,
        }
    } else {
        route
    }
}

/// The route wrapped in what a path names, if the path is one ident.
pub open spec fn with_wrapper(path: Path, route: RouteView) -> RouteView {
    match single_ident(path) {
        Some(wrapper) => RouteView {
            middleware: Some(
                match route.middleware {
                    Some(m) => m.push(wrapper),
                    None => seq![wrapper],
                },
            ),
            ..route
        },
        None => route,
    }
}

/// The route with the method that a called function names: the last segment
/// of its path, as `post` in `web::post()`.
pub open spec fn with_method(func: Expr, route: RouteView) -> RouteView {
    match func {
        Expr::Path(p) => {
            if p.segments@.len() > 0 {
                RouteView { method: p.segments@.last().ident@, ..route }
            } else {
                route
            }
        },
        _ => route,
    }
}

/// The service named by the first `n` arguments of a segment: the first
/// segment of the last argument that is a path type.
pub open spec fn service_in(args: Seq<GenericArg>, service: Option<Seq<char>>, n: nat) -> Option<
    Seq<char>,
>
    decreases n,
{
    if n == 0 || n > args.len() {
        service
    } else {
        let before = service_in(args, service, (n - 1) as nat);
        match args[n - 1] {
            GenericArg::Type(Type::Path(p)) => {
                if p.segments@.len() > 0 {
                    Some(p.segments@[0].ident@)
                } else {
                    before
                }
            },
            _ => before,
        }
    }
}

/// What the first `n` segments of the path to a handler name: the segments
/// other than `handler`, of which the last is the handler, and the service
/// that their arguments name.
pub open spec fn target_in(segments: Seq<Segment>, n: nat) -> (Seq<Seq<char>>, Option<Seq<char>>)
    decreases n,
{
    if n == 0 || n > segments.len() {
        (Seq::empty(), None)
    } else {
        let (names, service) = target_in(segments, (n - 1) as nat);
        let segment = segments[n - 1];
        if segment.ident@ == "handler"@ {
            (names, service)
        } else {
            (
                names.push(segment.ident@),
                match segment.arguments {
                    Arguments::AngleBracketed(args) => service_in(args@, service, args@.len()),
                    _ => service,
                },
            )
        }
    }
}

/// The route with the handler and the service that a call such as
/// `.to(handler::login::<Service>)` names in its first argument.
pub open spec fn with_handler(args: Seq<Expr>, route: RouteView) -> RouteView {
    if args.len() > 0 {
        match args[0] {
            Expr::Path(p) => {
                let (names, service) = target_in(p.segments@, p.segments@.len());
                if names.len() > 0 {
                    RouteView { handler_name: names.last(), service, ..route }
                } else {
                    route
                }
            },
            _ => route,
        }
    } else {
        route
    }
}

/// What a chain of method calls such as
/// `web::resource("/x").route(web::post().to(handler::f)).wrap(guard)` says
/// of a route: first what its receiver says, then what each argument says.
pub open spec fn scan_call(call: MethodCall, route: RouteView) -> RouteView
    decreases call, 1nat, 0nat,
{
    scan_args(
        call,
        match call.receiver {
            Expr::MethodCall(inner) => scan_call(*inner, route),
            Expr::Call(c) => with_path(c.args@, route),
            _ => route,
        },
        call.args@.len(),
    )
}

/// What the first `n` arguments of a method call add to a route.
pub open spec fn scan_args(call: MethodCall, route: RouteView, n: nat) -> RouteView
    decreases call, 0nat, n,
{
    if n == 0 || n > call.args@.len() {
        route
    } else {
        scan_arg(call.args@[n - 1], scan_args(call, route, (n - 1) as nat))
    }
}

/// What one argument of a method call says of a route: a path names a
/// wrapper; a method call names a method and a path by its receiver, or a
/// wrapper, and a handler by its first argument.
pub open spec fn scan_arg(arg: Expr, route: RouteView) -> RouteView
    decreases arg, 2nat, 0nat,
{
    match arg {
        Expr::Path(p) => with_wrapper(p, route),
        Expr::MethodCall(m) => with_handler(
            m.args@,
            match m.receiver {
                Expr::MethodCall(inner) => scan_call(*inner, route),
                Expr::Call(c) => with_path(c.args@, with_method(c.func, route)),
                Expr::Path(p) => with_wrapper(p, route),
                _ => route,
            },
        ),
        _ => route,
    }
}

/// How deep a scan is, and what it has read at each depth so far, in the
/// order of reading.
pub struct Depths {
    pub level: usize,
    pub read: Map<usize, Seq<Seq<char>>>,
}

/// What was read at each depth, as plain values.
pub open spec fn read_view(stuff: Map<usize, Vec<String>>) -> Map<usize, Seq<Seq<char>>> {
    Map::new(|k: usize| stuff.contains_key(k), |k: usize| names_view(stuff[k]@))
}

/// A depth with what was read so far.
pub open spec fn depths(level: usize, stuff: HashMap<usize, Vec<String>>) -> Depths {
    Depths { level, read: read_view(stuff@) }
}

/// One more text read at the depth the scan is at.
pub open spec fn read_at(d: Depths, text: Seq<char>) -> Depths {
    Depths {
        read: d.read.insert(
            d.level,
            if d.read.contains_key(d.level) {
                d.read[d.level].push(text)
            } else {
                seq![text]
            },
        ),
        ..d
    }
}

/// One level deeper. The depth stops at the largest number.
pub open spec fn deeper(d: Depths) -> Depths {
    Depths {
        level: if d.level < usize::MAX {
            (d.level + 1) as usize
        } else {
            d.level
        },
        ..d
    }
}

/// What is read where a call names a path: the path.
pub open spec fn path_read(args: Seq<Expr>, d: Depths) -> Depths {
    if args.len() > 0 {
        match args[0] {
            Expr::Str(path) => read_at(d, path@),
            _ => d,
        }
    } else {
        d
    }
}

/// What is read where a path names a wrapper: the wrapper.
pub open spec fn wrapper_read(path: Path, d: Depths) -> Depths {
    match single_ident(path) {
        Some(wrapper) => read_at(d, wrapper),
        None => d,
    }
}

/// What is read where a called function names a method: the method.
pub open spec fn method_read(func: Expr, d: Depths) -> Depths {
    match func {
        Expr::Path(p) => {
            if p.segments@.len() > 0 {
                read_at(d, p.segments@.last().ident@)
            } else {
                d
            }
        },
        _ => d,
    }
}

/// What is read where a call names a handler: the service, or an empty text
/// where none is named, and then the handler.
pub open spec fn handler_read(args: Seq<Expr>, d: Depths) -> Depths {
    if args.len() > 0 {
        match args[0] {
            Expr::Path(p) => {
                let (names, service) = target_in(p.segments@, p.segments@.len());
                if names.len() > 0 {
                    read_at(
                        read_at(
                            d,
                            match service {
                                Some(s) => s,
                                None => Seq::empty(),
                            },
                        ),
                        names.last(),
                    )
                } else {
                    d
                }
            },
            _ => d,
        }
    } else {
        d
    }
}

/// How deep the scan of a chain of method calls goes and what it reads on
/// the way: each call of the chain is one level, the innermost the first,
/// and what a call names is read at the depth that the scan has reached
/// when it comes to it.
pub open spec fn depths_call(call: MethodCall, d: Depths) -> Depths
    decreases call, 1nat, 0nat,
{
    deeper(
        depths_args(
            call,
            match call.receiver {
                Expr::MethodCall(inner) => depths_call(*inner, d),
                Expr::Call(c) => path_read(c.args@, d),
                _ => d,
            },
            call.args@.len(),
        ),
    )
}

/// The depth and the reading after the first `n` arguments of a method
/// call.
pub open spec fn depths_args(call: MethodCall, d: Depths, n: nat) -> Depths
    decreases call, 0nat, n,
{
    if n == 0 || n > call.args@.len() {
        d
    } else {
        depths_arg(call.args@[n - 1], depths_args(call, d, (n - 1) as nat))
    }
}

/// The depth and the reading after one argument of a method call.
pub open spec fn depths_arg(arg: Expr, d: Depths) -> Depths
    decreases arg, 2nat, 0nat,
{
    match arg {
        Expr::Path(p) => wrapper_read(p, d),
        Expr::MethodCall(m) => handler_read(
            m.args@,
            match m.receiver {
                Expr::MethodCall(inner) => depths_call(*inner, d),
                Expr::Call(c) => path_read(c.args@, method_read(c.func, d)),
                Expr::Path(p) => wrapper_read(p, d),
                _ => d,
            },
        ),
        _ => d,
    }
}

/// Notes a text as read at a depth, after what was read there before.
fn note(stuff: &mut HashMap<usize, Vec<String>>, level: usize, text: String)
    ensures
        depths(level, *final(stuff)) == read_at(depths(level, *old(stuff)), text@),
{
    broadcast use vstd::std_specs::hash::group_hash_axioms;

    let ghost before = stuff@;
    let mut list = match stuff.remove(&level) {
        Some(l) => l,
        None => Vec::new(),
    };
    let ghost was = names_view(list@);
    list.push(text);
    proof {
        assert(names_view(list@) =~= was.push(text@));
        if !before.contains_key(level) {
            assert(names_view(list@) =~= seq![text@]);
        }
    }
    stuff.insert(level, list);
    proof {
        assert(read_view(stuff@) =~= read_at((Depths { level, read: read_view(before) }), text@).read);
    }
}

fn set_path(args: &Vec<Expr>, route: &mut Route, level: usize, stuff: &mut HashMap<usize, Vec<String>>)
    ensures
        final(route)@ == with_path(args@, old(route)@),
        depths(level, *final(stuff)) == path_read(args@, depths(level, *old(stuff))),
{
    if args.len() > 0 {
        match &args[0] {
            Expr::Str(path) => {
                route.path = path.clone();
                note(stuff, level, path.clone());
            },
            _ => {},
        }
    }
}

fn add_wrapper(path: &Path, route: &mut Route, level: usize, stuff: &mut HashMap<usize, Vec<String>>)
    ensures
        final(route)@ == with_wrapper(*path, old(route)@),
        depths(level, *final(stuff)) == wrapper_read(*path, depths(level, *old(stuff))),
{
    match get_ident(path) {
        Some(wrapper) => {
            let ghost before = route@;
            let mut list = match route.middleware.take() {
                Some(m) => m,
                None => Vec::new(),
            };
            let ghost was = names_view(list@);
            list.push(wrapper.clone());
            proof {
                assert(names_view(list@) =~= was.push(wrapper@));
                if before.middleware is None {
                    assert(was =~= Seq::empty());
                    assert(names_view(list@) =~= seq![wrapper@]);
                }
            }
            route.middleware = Some(list);
            note(stuff, level, wrapper);
        },
        None => {},
    }
}

fn set_method(func: &Expr, route: &mut Route, level: usize, stuff: &mut HashMap<usize, Vec<String>>)
    ensures
        final(route)@ == with_method(*func, old(route)@),
        depths(level, *final(stuff)) == method_read(*func, depths(level, *old(stuff))),
{
    match func {
        Expr::Path(p) => {
            if p.segments.len() > 0 {
                route.method = p.segments[p.segments.len() - 1].ident.clone();
                note(stuff, level, route.method.clone());
            }
        },
        _ => {},
    }
}

fn service_of(args: &Vec<GenericArg>, service: Option<String>) -> (r: Option<String>)
    ensures
        text_opt(r) == service_in(args@, text_opt(service), args@.len()),
{
    let mut service = service;
    let ghost start = text_opt(service);
    let mut i: usize = 0;
    while i < args.len()
        invariant
            i <= args.len(),
            text_opt(service) == service_in(args@, start, i as nat),
        decreases args.len() - i,
    {
        match &args[i] {
            GenericArg::Type(Type::Path(p)) => {
                if p.segments.len() > 0 {
                    service = Some(p.segments[0].ident.clone());
                }
            },
            _ => {},
        }
        i = i + 1;
    }
    service
}

fn set_handler(args: &Vec<Expr>, route: &mut Route, level: usize, stuff: &mut HashMap<usize, Vec<String>>)
    ensures
        final(route)@ == with_handler(args@, old(route)@),
        depths(level, *final(stuff)) == handler_read(args@, depths(level, *old(stuff))),
{
    if args.len() == 0 {
        return ;
    }
    match &args[0] {
        Expr::Path(p) => {
            let mut handler: Option<String> = None;
            let mut service: Option<String> = None;
            let mut i: usize = 0;
            while i < p.segments.len()
                invariant
                    i <= p.segments.len(),
                    text_opt(service) == target_in(p.segments@, i as nat).1,
                    match handler {
                        Some(h) => target_in(p.segments@, i as nat).0.len() > 0 && target_in(
                            p.segments@,
                            i as nat,
                        ).0.last() == h@,
                        None => target_in(p.segments@, i as nat).0.len() == 0,
                    },
                decreases p.segments.len() - i,
            {
                if !is_text(&p.segments[i].ident, "handler") {
                    handler = Some(p.segments[i].ident.clone());
                    match &p.segments[i].arguments {
                        Arguments::AngleBracketed(args) => {
                            service = service_of(args, service);
                        },
                        _ => {},
                    }
                }
                i = i + 1;
            }
            match handler {
                Some(h) => {
                    let s = match &service {
                        Some(s) => s.clone(),
                        None => String::new(),
                    };
                    note(stuff, level, s);
                    note(stuff, level, h.clone());
                    route.handler_name = h;
                    route.service = service;
                },
                None => {},
            }
        },
        _ => {},
    }
}

fn scan_argument(
    arg: &Expr,
    route: &mut Route,
    level: &mut usize,
    stuff: &mut HashMap<usize, Vec<String>>,
)
    ensures
        final(route)@ == scan_arg(*arg, old(route)@),
        depths(*final(level), *final(stuff)) == depths_arg(*arg, depths(*old(level), *old(stuff))),
    decreases arg, 2nat,
{
    match arg {
        Expr::Path(p) => add_wrapper(p, route, *level, stuff),
        Expr::MethodCall(m) => {
            match &m.receiver {
                Expr::MethodCall(inner) => scan_setup(inner, route, level, stuff),
                Expr::Call(c) => {
                    set_method(&c.func, route, *level, stuff);
                    set_path(&c.args, route, *level, stuff);
                },
                Expr::Path(p) => add_wrapper(p, route, *level, stuff),
                _ => {},
            }
            set_handler(&m.args, route, *level, stuff);
        },
        _ => {},
    }
}

/// Scan a chain of method calls for route info: adds what is found to the
/// route, counts in `level` how deep the chain goes, and notes in `stuff`
/// what was read at each depth.
pub fn scan_setup(
    call: &MethodCall,
    route: &mut Route,
    level: &mut usize,
    stuff: &mut HashMap<usize, Vec<String>>,
)
    ensures
        final(route)@ == scan_call(*call, old(route)@),
        depths(*final(level), *final(stuff)) == depths_call(
            *call,
            depths(*old(level), *old(stuff)),
        ),
    decreases call, 1nat,
{
    match &call.receiver {
        Expr::MethodCall(inner) => scan_setup(inner, route, level, stuff),
        Expr::Call(c) => set_path(&c.args, route, *level, stuff),
        _ => {},
    }
    let ghost start = route@;
    let ghost from = depths(*level, *stuff);
    let mut i: usize = 0;
    while i < call.args.len()
        invariant
            i <= call.args.len(),
            route@ == scan_args(*call, start, i as nat),
            depths(*level, *stuff) == depths_args(*call, from, i as nat),
        decreases call.args.len() - i,
    {
        scan_argument(&call.args[i], route, level, stuff);
        i = i + 1;
    }
    if *level < usize::MAX {
        *level = *level + 1;
    }
}

/// The service that a statement registers: the method call in the first
/// argument of a call of `service` on `cfg`.
pub open spec fn registered(statement: Statement) -> Option<MethodCall> {
    match statement {
        Statement::Semi(Expr::MethodCall(call)) => match call.receiver {
            Expr::Path(target) => {
                if target.segments@.len() > 0 && target.segments@[0].ident@ == "cfg"@
                    && call.method@ == "service"@ && call.args@.len() > 0 {
                    match call.args@[0] {
                        Expr::MethodCall(service) => Some(*service),
                        _ => None,
                    }
                } else {
                    None
                }
            },
            _ => None,
        },
        _ => None,
    }
}

/// The routes that the first `n` statements register, in their order. A
/// statement of which nothing is read registers no route.
pub open spec fn read_routes(statements: Seq<Statement>, n: nat) -> Seq<RouteView>
    decreases n,
{
    if n == 0 || n > statements.len() {
        Seq::empty()
    } else {
        let before = read_routes(statements, (n - 1) as nat);
        match registered(statements[n - 1]) {
            Some(service) => {
                if scan_call(service, blank_route()) == blank_route() {
                    before
                } else {
                    before.push(scan_call(service, blank_route()))
                }
            },
            None => before,
        }
    }
}

fn registered_service(statement: &Statement) -> (r: Option<&MethodCall>)
    ensures
        match r {
            Some(service) => registered(*statement) == Some(*service),
            None => registered(*statement) is None,
        },
{
    match statement {
        Statement::Semi(Expr::MethodCall(call)) => match &call.receiver {
            Expr::Path(target) => {
                if target.segments.len() > 0 && is_text(&target.segments[0].ident, "cfg")
                    && is_text(&call.method, "service") && call.args.len() > 0 {
                    match &call.args[0] {
                        Expr::MethodCall(service) => Some(service),
                        _ => None,
                    }
                } else {
                    None
                }
            },
            _ => None,
        },
        _ => None,
    }
}

/// The routes that a setup function registers.
pub fn scan_routes(statements: &Vec<Statement>) -> (r: Vec<Route>)
    ensures
        routes_view(r@) == read_routes(statements@, statements@.len()),
{
    let mut setup: Vec<Route> = Vec::new();
    let mut i: usize = 0;
    proof {
        assert(routes_view(setup@) =~= Seq::empty());
    }
    while i < statements.len()
        invariant
            i <= statements.len(),
            routes_view(setup@) == read_routes(statements@, i as nat),
        decreases statements.len() - i,
    {
        let ghost before = routes_view(setup@);
        match registered_service(&statements[i]) {
            Some(service) => {
                let mut route = Route::default();
                let mut level: usize = 0;
                let mut stuff: HashMap<usize, Vec<String>> = HashMap::new();
                scan_setup(service, &mut route, &mut level, &mut stuff);
                if !route.is_blank() {
                    let ghost found = route@;
                    setup.push(route);
                    proof {
                        assert(routes_view(setup@) =~= before.push(found));
                    }
                }
            },
            None => {},
        }
        i = i + 1;
    }
    setup
}

/// What the scan of one file found.
#[derive(Debug, PartialEq, Eq)]
pub enum FileScanResult {
    Handlers(Vec<Handler>),
    Setup(Vec<Route>),
}

pub enum FileScanView {
    Handlers(Seq<HandlerView>),
    Setup(Seq<RouteView>),
}

impl View for FileScanResult {
    type V = FileScanView;

    open spec fn view(&self) -> FileScanView {
        match self {
            FileScanResult::Handlers(h) => FileScanView::Handlers(handlers_view(h@)),
            FileScanResult::Setup(r) => FileScanView::Setup(routes_view(r@)),
        }
    }
}

/// What a file of a kind holds: a setup file the routes that its first
/// function registers, a handler file its functions as handlers.
pub open spec fn read_file(functions: Seq<Function>, file_type: AlxFileType) -> Option<
    FileScanView,
> {
    match file_type {
        AlxFileType::Setup => Some(
            FileScanView::Setup(
                if functions.len() > 0 {
                    read_routes(functions[0].statements@, functions[0].statements@.len())
                } else {
                    Seq::empty()
                },
            ),
        ),
        AlxFileType::Handler => match read_handlers(functions, functions.len()) {
            Some(handlers) => Some(FileScanView::Handlers(handlers)),
            None => None,
        },
    }
}

/// Scans the functions of one parsed file as a file of the given kind.
pub fn parse(functions: &Vec<Function>, file_type: AlxFileType) -> (r: Result<
    FileScanResult,
    ScanError,
>)
    ensures
        match r {
            Ok(found) => read_file(functions@, file_type) == Some(found@),
            Err(_) => read_file(functions@, file_type) is None,
        },
{
    match file_type {
        AlxFileType::Setup => {
            if functions.len() > 0 {
                Ok(FileScanResult::Setup(scan_routes(&functions[0].statements)))
            } else {
                let none: Vec<Route> = Vec::new();
                proof {
                    assert(routes_view(none@) =~= Seq::empty());
                }
                Ok(FileScanResult::Setup(none))
            }
        },
        AlxFileType::Handler => match scan_handlers(functions) {
            Ok(handlers) => Ok(FileScanResult::Handlers(handlers)),
            Err(e) => Err(e),
        },
    }
}

/// Whether `pattern` stands in `text` at `i`.
pub open spec fn occurs_at(text: Seq<char>, pattern: Seq<char>, i: int) -> bool {
    0 <= i && i + pattern.len() <= text.len() && text.subrange(i, i + pattern.len()) == pattern
}

/// Whether `pattern` stands anywhere in `text`.
pub open spec fn occurs(text: Seq<char>, pattern: Seq<char>) -> bool {
    exists|i: int| occurs_at(text, pattern, i)
}

fn stands_at(text: &str, pattern: &str, i: usize, m: usize, n: usize) -> (r: bool)
    requires
        m == pattern@.len(),
        n == text@.len(),
        i + m <= n,
    ensures
        r == occurs_at(text@, pattern@, i as int),
{
    let mut j: usize = 0;
    while j < m
        invariant
            j <= m,
            m == pattern@.len(),
            n == text@.len(),
            i + m <= n,
            forall|t: int| 0 <= t < j ==> text@[i + t] == pattern@[t],
        decreases m - j,
    {
        if text.get_char(i + j) != pattern.get_char(j) {
            proof {
                assert(text@.subrange(i as int, i + m)[j as int] == text@[i + j]);
            }
            return false;
        }
        j = j + 1;
    }
    proof {
        assert(text@.subrange(i as int, i + m) =~= pattern@);
    }
    true
}

/// Whether `pattern` stands anywhere in `text`.
pub fn contains_text(text: &str, pattern: &str) -> (r: bool)
    ensures
        r == occurs(text@, pattern@),
{
    let n = text.unicode_len();
    let m = pattern.unicode_len();
    if m > n {
        return false;
    }
    if m == 0 {
        proof {
            assert(text@.subrange(0, 0) =~= pattern@);
            assert(occurs_at(text@, pattern@, 0));
        }
        return true;
    }
    let mut i: usize = 0;
    while i <= n - m
        invariant
            n == text@.len(),
            m == pattern@.len(),
            0 < m <= n,
            i <= n - m + 1,
            forall|k: int| 0 <= k < i ==> !occurs_at(text@, pattern@, k),
        decreases n - m + 1 - i,
    {
        if stands_at(text, pattern, i, m, n) {
            return true;
        }
        i = i + 1;
    }
    false
}

/// The scans that a file of this name is given: a file with `setup` in its
/// name is scanned for routes, one with `handler` in its name for handlers,
/// and a file may be both.
pub fn scans_for(file_name: &str) -> (r: (bool, bool))
    ensures
        r.0 == occurs(file_name@, "setup"@),
        r.1 == occurs(file_name@, "handler"@),
{
    (contains_text(file_name, "setup"), contains_text(file_name, "handler"))
}

/// The entries of a list by key, as plain values.
pub open spec fn keyed<V, W>(entries: Seq<(String, V)>, view: spec_fn(V) -> W) -> Seq<
    (Seq<char>, W),
> {
    entries.map_values(|e: (String, V)| (e.0@, view(e.1)))
}

/// The place of the first entry under `key` among the first `n` entries.
pub open spec fn place_of<W>(entries: Seq<(Seq<char>, W)>, key: Seq<char>, n: nat) -> Option<int>
    decreases n,
{
    if n == 0 || n > entries.len() {
        None
    } else {
        match place_of(entries, key, (n - 1) as nat) {
            Some(i) => Some(i),
            None => if entries[n - 1].0 == key {
                Some(n - 1)
            } else {
                None
            },
        }
    }
}

proof fn place_stays<W>(entries: Seq<(Seq<char>, W)>, key: Seq<char>, n: nat, m: nat)
    requires
        n <= m <= entries.len(),
        place_of(entries, key, n) is Some,
    ensures
        place_of(entries, key, m) == place_of(entries, key, n),
    decreases m - n,
{
    if n < m {
        place_stays(entries, key, n, (m - 1) as nat);
    }
}

/// The list with `value` put under `key`: in place of the first entry under
/// that key, or at the end if there is none.
pub open spec fn put_under<W>(entries: Seq<(Seq<char>, W)>, key: Seq<char>, value: W) -> Seq<
    (Seq<char>, W),
> {
    match place_of(entries, key, entries.len()) {
        Some(i) => entries.update(i, (key, value)),
        None => entries.push((key, value)),
    }
}

fn put<V, W>(
    entries: &mut Vec<(String, V)>,
    key: &String,
    value: V,
    Ghost(view): Ghost<spec_fn(V) -> W>,
)
    ensures
        keyed(final(entries)@, view) == put_under(keyed(old(entries)@, view), key@, view(value)),
{
    let ghost before = keyed(entries@, view);
    let mut i: usize = 0;
    while i < entries.len()
        invariant
            i <= entries@.len(),
            keyed(entries@, view) == before,
            before == keyed(old(entries)@, view),
            place_of(before, key@, i as nat) is None,
        decreases entries@.len() - i,
    {
        if same_text(&entries[i].0, key) {
            proof {
                assert(before[i as int].0 == key@);
                assert(place_of(before, key@, (i + 1) as nat) == Some(i as int));
                place_stays(before, key@, (i + 1) as nat, before.len());
            }
            entries.set(i, (key.clone(), value));
            proof {
                assert(keyed(entries@, view) =~= before.update(i as int, (key@, view(value))));
            }
            return ;
        }
        i = i + 1;
    }
    entries.push((key.clone(), value));
    proof {
        assert(keyed(entries@, view) =~= before.push((key@, view(value))));
    }
}

type EndpointID = String;

/// What the analysis found: for each endpoint directory the handlers and
/// the routes of its files.
#[derive(Debug, PartialEq, Eq)]
pub struct ScanResult {
    pub handlers: Vec<(EndpointID, Vec<Handler>)>,
    pub routes: Vec<(EndpointID, Vec<Route>)>,
}

pub struct ScanView {
    pub handlers: Seq<(Seq<char>, Seq<HandlerView>)>,
    pub routes: Seq<(Seq<char>, Seq<RouteView>)>,
}

pub open spec fn handler_list(v: Vec<Handler>) -> Seq<HandlerView> {
    handlers_view(v@)
}

pub open spec fn route_list(v: Vec<Route>) -> Seq<RouteView> {
    routes_view(v@)
}

impl View for ScanResult {
    type V = ScanView;

    open spec fn view(&self) -> ScanView {
        ScanView {
            handlers: keyed(self.handlers@, |v: Vec<Handler>| handler_list(v)),
            routes: keyed(self.routes@, |v: Vec<Route>| route_list(v)),
        }
    }
}

/// The result with what the scan of a file in a directory found noted.
/// Routes are noted from a setup scan and handlers from a handler scan,
/// under the directory, in place of what was noted for it before; a result
/// of the other kind is not noted.
pub open spec fn noted(
    scan: ScanView,
    dirname: Seq<char>,
    file_type: AlxFileType,
    found: FileScanView,
) -> ScanView {
    match (file_type, found) {
        (AlxFileType::Setup, FileScanView::Setup(routes)) => ScanView {
            routes: put_under(scan.routes, dirname, routes),
            ..scan
        },
        (AlxFileType::Handler, FileScanView::Handlers(handlers)) => ScanView {
            handlers: put_under(scan.handlers, dirname, handlers),
            ..scan
        },
        _ => scan,
    }
}

impl ScanResult {
    /// A result with nothing noted.
    pub fn new() -> (r: ScanResult)
        ensures
            r@.handlers.len() == 0,
            r@.routes.len() == 0,
    {
        ScanResult { handlers: Vec::new(), routes: Vec::new() }
    }

    /// Notes what the scan of a file in `dirname` found.
    pub fn record(&mut self, dirname: &String, file_type: AlxFileType, found: FileScanResult)
        ensures
            final(self)@ == noted(old(self)@, dirname@, file_type, found@),
    {
        match (file_type, found) {
            (AlxFileType::Setup, FileScanResult::Setup(routes)) => {
                put::<Vec<Route>, Seq<RouteView>>(
                    &mut self.routes,
                    dirname,
                    routes,
                    Ghost(|v: Vec<Route>| route_list(v)),
                );
            },
            (AlxFileType::Handler, FileScanResult::Handlers(handlers)) => {
                put::<Vec<Handler>, Seq<HandlerView>>(
                    &mut self.handlers,
                    dirname,
                    handlers,
                    Ghost(|v: Vec<Handler>| handler_list(v)),
                );
            },
            _ => {},
        }
    }
}

/// A source file as it was read: its name and the functions it defines.
#[derive(Debug, PartialEq, Eq)]
pub struct SourceFile {
    pub name: String,
    pub functions: Vec<Function>,
}

/// An entry of a directory listing.
#[derive(Debug, PartialEq, Eq)]
pub enum DirEntry {
    Directory(Directory),
    File(SourceFile),
}

/// A directory as it was read: its path and what it holds, in the order
/// of the listing.
#[derive(Debug, PartialEq, Eq)]
pub struct Directory {
    pub path: String,
    pub entries: Vec<DirEntry>,
}

/// The result after one kind of scan of a file in a directory, if the
/// file's name asks for that kind of scan.
pub open spec fn scanned_as(
    scan: Option<ScanView>,
    dirname: Seq<char>,
    file: SourceFile,
    file_type: AlxFileType,
    marker: Seq<char>,
) -> Option<ScanView> {
    match scan {
        Some(s) => {
            if occurs(file.name@, marker) {
                match read_file(file.functions@, file_type) {
                    Some(found) => Some(noted(s, dirname, file_type, found)),
                    None => None,
                }
            } else {
                Some(s)
            }
        },
        None => None,
    }
}

/// The result after the scans of a file: first for routes, then for
/// handlers.
pub open spec fn scanned(scan: ScanView, dirname: Seq<char>, file: SourceFile) -> Option<ScanView> {
    scanned_as(
        scanned_as(Some(scan), dirname, file, AlxFileType::Setup, "setup"@),
        dirname,
        file,
        AlxFileType::Handler,
        "handler"@,
    )
}

/// The result after a directory was read: its entries in the order of the
/// listing, directories in depth. Nothing, if a file could not be scanned.
pub open spec fn read(dir: Directory, scan: ScanView) -> Option<ScanView>
    decreases dir, 1nat, 0nat,
{
    read_entries(dir, scan, dir.entries@.len())
}

/// The result after the first `n` entries of a directory were read.
pub open spec fn read_entries(dir: Directory, scan: ScanView, n: nat) -> Option<ScanView>
    decreases dir, 0nat, n,
{
    if n == 0 || n > dir.entries@.len() {
        Some(scan)
    } else {
        match read_entries(dir, scan, (n - 1) as nat) {
            Some(s) => match dir.entries@[n - 1] {
                DirEntry::Directory(d) => read(d, s),
                DirEntry::File(f) => scanned(s, dir.path@, f),
            },
            None => None,
        }
    }
}

fn scan_file(scan: &mut ScanResult, dirname: &String, file: &SourceFile) -> (ok: bool)
    ensures
        ok ==> scanned(old(scan)@, dirname@, *file) == Some(final(scan)@),
        !ok ==> scanned(old(scan)@, dirname@, *file) is None,
{
    let (setup, handler) = scans_for(file.name.as_str());
    if setup {
        match parse(&file.functions, AlxFileType::Setup) {
            Ok(found) => scan.record(dirname, AlxFileType::Setup, found),
            Err(_) => {
                return false;
            },
        }
    }
    if handler {
        match parse(&file.functions, AlxFileType::Handler) {
            Ok(found) => scan.record(dirname, AlxFileType::Handler, found),
            Err(_) => {
                return false;
            },
        }
    }
    true
}

/// Recursively read a directory, and note for each of its directories the
/// routes and the handlers of its files. A file with syntax that the scan
/// does not read fails the reading; what was noted until then stays.
pub fn router_read_recursive(dir: &Directory, scan: &mut ScanResult) -> (r: Result<(), ScanError>)
    ensures
        match r {
            Ok(_) => read(*dir, old(scan)@) == Some(final(scan)@),
            Err(_) => read(*dir, old(scan)@) is None,
        },
    decreases dir,
{
    let ghost start = scan@;
    let mut ok = true;
    let mut i: usize = 0;
    while i < dir.entries.len()
        invariant
            i <= dir.entries.len(),
            start == old(scan)@,
            ok ==> read_entries(*dir, start, i as nat) == Some(scan@),
            !ok ==> read_entries(*dir, start, i as nat) is None,
        decreases dir.entries.len() - i,
    {
        if ok {
            match &dir.entries[i] {
                DirEntry::Directory(d) => {
                    ok = router_read_recursive(d, scan).is_ok();
                },
                DirEntry::File(f) => {
                    ok = scan_file(scan, &dir.path, f);
                },
            }
        }
        i = i + 1;
    }
    if ok {
        Ok(())
    } else {
        Err(ScanError::Unsupported)
    }
}

} // verus!
