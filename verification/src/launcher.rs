//! Which server modules a run starts, from the names on its command line.
use vstd::prelude::*;

verus! {

/// A server module.
#[derive(Debug, Clone, Copy, PartialEq, Eq, Structural)]
pub enum ModuleKind {
    HttpServer,
    WebsocketServer,
    RedisToPostgres,
}

/// Why no module runs.
#[derive(Debug)]
pub enum ModuleSelectionError {
    /// No module was named.
    NoModules,
    /// This name is not a module.
    UnknownModule(String),
}

/// The module of a name, if it names one.
pub open spec fn module_of(name: Seq<char>) -> Option<ModuleKind> {
    if name == "http-server"@ {
        Some(ModuleKind::HttpServer)
    } else if name == "websocket-server"@ {
        Some(ModuleKind::WebsocketServer)
    } else if name == "redis-to-postgres"@ {
        Some(ModuleKind::RedisToPostgres)
    } else {
        None
    }
}

/// Some name is `all`.
pub open spec fn names_all(names: Seq<String>) -> bool {
    exists|i: int| 0 <= i < names.len() && (#[trigger] names[i])@ == "all"@
}

fn module_of_exec(name: &String) -> (r: Option<ModuleKind>)
    ensures
        r == module_of(name@),
{
    let http = String::from_str("http-server");
    let ws = String::from_str("websocket-server");
    let r2p = String::from_str("redis-to-postgres");
    if *name == http {
        Some(ModuleKind::HttpServer)
    } else if *name == ws {
        Some(ModuleKind::WebsocketServer)
    } else if *name == r2p {
        Some(ModuleKind::RedisToPostgres)
    } else {
        None
    }
}

/// The outcome of selecting modules for the names on the command line: none
/// named is an error; `all` among them means the three modules; otherwise
/// each name in order, and the first name that is not a module is an error.
pub open spec fn selection_outcome(names: Seq<String>, r: Result<Vec<ModuleKind>, ModuleSelectionError>) -> bool {
    (names.len() == 0 ==> (r matches Err(ModuleSelectionError::NoModules))) && (names.len() > 0
        && names_all(names) ==> (r matches Ok(m) && m@ == seq![
        ModuleKind::HttpServer,
        ModuleKind::WebsocketServer,
        ModuleKind::RedisToPostgres,
    ])) && (names.len() > 0 && !names_all(names) ==> match r {
        Ok(m) => m@.len() == names.len() && forall|i: int|
            0 <= i < names.len() ==> module_of((#[trigger] names[i])@) == Some(m@[i]),
        Err(ModuleSelectionError::UnknownModule(n)) => exists|i: int|
            0 <= i < names.len() && (#[trigger] names[i])@ == n@ && module_of(n@) is None
                && forall|j: int| 0 <= j < i ==> module_of((#[trigger] names[j])@) is Some,
        Err(ModuleSelectionError::NoModules) => false,
    })
}

/// The modules to run for the names on the command line: none named is an
/// error; `all` among them means the three modules; otherwise each name in
/// order, and the first name that is not a module is an error.
pub fn select_modules(names: &Vec<String>) -> (r: Result<Vec<ModuleKind>, ModuleSelectionError>)
    ensures
        selection_outcome(names@, r),
{
    if names.len() == 0 {
        return Err(ModuleSelectionError::NoModules);
    }
    let all = String::from_str("all");
    let mut i: usize = 0;
    while i < names.len()
        invariant
            0 <= i <= names.len(),
            all@ == "all"@,
            forall|k: int| 0 <= k < i ==> (#[trigger] names@[k])@ != "all"@,
        decreases names.len() - i,
    {
        if names[i] == all {
            let mut m: Vec<ModuleKind> = Vec::new();
            m.push(ModuleKind::HttpServer);
            m.push(ModuleKind::WebsocketServer);
            m.push(ModuleKind::RedisToPostgres);
            assert(m@ =~= seq![
                ModuleKind::HttpServer,
                ModuleKind::WebsocketServer,
                ModuleKind::RedisToPostgres,
            ]);
            return Ok(m);
        }
        i = i + 1;
    }
    assert(!names_all(names@));
    let mut m: Vec<ModuleKind> = Vec::new();
    let mut k: usize = 0;
    while k < names.len()
        invariant
            0 <= k <= names.len(),
            !names_all(names@),
            m@.len() == k,
            forall|j: int| 0 <= j < k ==> module_of((#[trigger] names@[j])@) == Some(m@[j]),
        decreases names.len() - k,
    {
        match module_of_exec(&names[k]) {
            Some(kind) => m.push(kind),
            None => {
                assert(names@[k as int]@ == names@[k as int]@);
                return Err(ModuleSelectionError::UnknownModule(names[k].clone()));
            },
        }
        k = k + 1;
    }
    Ok(m)
}

/// The names of the three modules.
pub open spec fn is_module_name(name: Seq<char>) -> bool {
    name == "http-server"@ || name == "websocket-server"@ || name == "redis-to-postgres"@
}

/// A command line made of module names runs those modules, in order:
/// `http-server` the HTTP server, `websocket-server` the websocket server,
/// `redis-to-postgres` the copier.
pub proof fn law_module_names_select_their_modules(
    names: Seq<String>,
    r: Result<Vec<ModuleKind>, ModuleSelectionError>,
)
    requires
        names.len() > 0,
        forall|i: int| 0 <= i < names.len() ==> is_module_name((#[trigger] names[i])@),
        selection_outcome(names, r),
    ensures
        r matches Ok(m) && m@.len() == names.len() && forall|i: int|
            0 <= i < names.len() ==> {
                &&& (#[trigger] names[i])@ == "http-server"@ ==> m@[i] == ModuleKind::HttpServer
                &&& names[i]@ == "websocket-server"@ ==> m@[i] == ModuleKind::WebsocketServer
                &&& names[i]@ == "redis-to-postgres"@ ==> m@[i] == ModuleKind::RedisToPostgres
            },
{
    reveal_strlit("http-server");
    reveal_strlit("websocket-server");
    reveal_strlit("redis-to-postgres");
    reveal_strlit("all");
    assert(!names_all(names)) by {
        if names_all(names) {
            let k = choose|k: int| 0 <= k < names.len() && (#[trigger] names[k])@ == "all"@;
            assert(is_module_name(names[k]@));
            assert(names[k]@.len() == 3);
        }
    }
    assert forall|i: int| 0 <= i < names.len() implies module_of((#[trigger] names[i])@) is Some by {
        assert(is_module_name(names[i]@));
    }
    match r {
        Ok(m) => {
            assert forall|i: int| 0 <= i < names.len() implies {
                &&& (#[trigger] names[i])@ == "http-server"@ ==> m@[i] == ModuleKind::HttpServer
                &&& names[i]@ == "websocket-server"@ ==> m@[i] == ModuleKind::WebsocketServer
                &&& names[i]@ == "redis-to-postgres"@ ==> m@[i] == ModuleKind::RedisToPostgres
            } by {
                reveal_strlit("http-server");
                reveal_strlit("websocket-server");
                reveal_strlit("redis-to-postgres");
                assert("redis-to-postgres"@.len() == 17);
                assert("http-server"@.len() == 11);
                assert("websocket-server"@.len() == 16);
                assert(module_of(names[i]@) == Some(m@[i]));
            }
        },
        Err(ModuleSelectionError::UnknownModule(n)) => {
            let k = choose|k: int|
                0 <= k < names.len() && (#[trigger] names[k])@ == n@ && module_of(n@) is None
                    && forall|j: int| 0 <= j < k ==> module_of((#[trigger] names[j])@) is Some;
            assert(module_of(names[k]@) is Some);
        },
        Err(ModuleSelectionError::NoModules) => {},
    }
}

/// A command line without `all` that names something that is not a module
/// runs nothing: the first such name is reported.
pub proof fn law_unknown_name_is_refused(names: Seq<String>, r: Result<Vec<ModuleKind>, ModuleSelectionError>, k: int)
    requires
        0 <= k < names.len(),
        !names_all(names),
        !is_module_name(names[k]@),
        selection_outcome(names, r),
    ensures
        r matches Err(ModuleSelectionError::UnknownModule(n)) && !is_module_name(n@),
{
    match r {
        Ok(m) => {
            assert(module_of(names[k]@) == Some(m@[k]));
        },
        _ => {},
    }
}

} // verus!
