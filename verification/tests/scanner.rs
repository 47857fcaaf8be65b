use ops_cli::scanner::dockerfile::{
    render_compose, render_compose_for, render_dockerfile, render_dockerignore, service_name_from,
};
use ops_cli::scanner::{gomod, node, python, rust, static_site};
use ops_cli::scanner::{scan, DockerStage, FileText, Framework, Snapshot, SourceInfo};

fn strings(items: &[&str]) -> Vec<String> {
    items.iter().map(|s| s.to_string()).collect()
}

fn snapshot(files: &[&str]) -> Snapshot {
    Snapshot { files: strings(files), texts: Vec::new() }
}

fn project(files: &[(&str, Option<&str>)]) -> Snapshot {
    Snapshot {
        files: files.iter().map(|(name, _)| name.to_string()).collect(),
        texts: files
            .iter()
            .filter_map(|(name, text)| {
                text.map(|t| FileText { name: name.to_string(), text: t.to_string() })
            })
            .collect(),
    }
}

fn info(stages: Vec<DockerStage>) -> SourceInfo {
    SourceInfo {
        family: "Go".to_string(),
        framework: Framework::Go,
        version: Some("1.22".to_string()),
        port: 8080,
        env_vars: Vec::new(),
        build_args: Vec::new(),
        install_cmd: "go mod download".to_string(),
        build_cmd: None,
        start_cmd: "./server".to_string(),
        binary_name: Some("server".to_string()),
        entry_point: None,
        package_manager: None,
        has_lockfile: true,
        dockerfile_stages: stages,
        dockerignore_entries: strings(&[".git", "*.md"]),
        notes: Vec::new(),
    }
}

#[test]
fn framework_names_and_ports() {
    let all = [
        (Framework::NextJs, "Next.js", 3000),
        (Framework::NuxtJs, "Nuxt", 3000),
        (Framework::ViteSpa, "Vite SPA", 80),
        (Framework::RemixJs, "Remix", 3000),
        (Framework::NodeApi, "Node.js API", 3000),
        (Framework::GenericNode, "Node.js", 3000),
        (Framework::FastApi, "FastAPI", 8000),
        (Framework::Django, "Django", 8000),
        (Framework::Flask, "Flask", 5000),
        (Framework::GenericPython, "Python", 8000),
        (Framework::Go, "Go", 8080),
        (Framework::Rust, "Rust", 8080),
        (Framework::StaticSite, "Static Site", 80),
    ];
    for (f, name, port) in all {
        assert_eq!(f.display_name(), name);
        assert_eq!(f.default_port(), port);
    }
}

#[test]
fn dockerfile_of_two_stages() {
    let stages = vec![
        DockerStage {
            name: Some("builder".to_string()),
            base_image: "golang:1.22-alpine".to_string(),
            workdir: "/app".to_string(),
            instructions: strings(&["COPY go.mod go.sum ./", "RUN go mod download"]),
            expose: None,
            cmd: None,
        },
        DockerStage {
            name: None,
            base_image: "alpine:3.20".to_string(),
            workdir: "/app".to_string(),
            instructions: strings(&["COPY --from=builder /app/server ."]),
            expose: Some(8080),
            cmd: Some(strings(&["./server", "--port", "8080"])),
        },
    ];
    assert_eq!(
        render_dockerfile(&info(stages)),
        "FROM golang:1.22-alpine AS builder\nWORKDIR /app\nCOPY go.mod go.sum ./\nRUN go mod download\n\nFROM alpine:3.20\nWORKDIR /app\nCOPY --from=builder /app/server .\nEXPOSE 8080\nCMD [\"./server\", \"--port\", \"8080\"]\n"
    );
}

#[test]
fn dockerfile_without_stages_is_empty() {
    assert_eq!(render_dockerfile(&info(Vec::new())), "");
}

#[test]
fn dockerfile_of_a_bare_stage() {
    let stages = vec![DockerStage {
        name: None,
        base_image: "scratch".to_string(),
        workdir: "/".to_string(),
        instructions: Vec::new(),
        expose: None,
        cmd: Some(Vec::new()),
    }];
    assert_eq!(render_dockerfile(&info(stages)), "FROM scratch\nWORKDIR /\nCMD []\n");
}

#[test]
fn compose_file() {
    let mut i = info(Vec::new());
    assert_eq!(
        render_compose("My App!", &i),
        "services:\n  my-app:\n    build: .\n    ports:\n      - \"8080:8080\"\n    restart: unless-stopped\n"
    );
    i.env_vars = vec![
        ("NODE_ENV".to_string(), "production".to_string()),
        ("PORT".to_string(), "8080".to_string()),
    ];
    assert_eq!(
        render_compose_for("web", &i),
        "services:\n  web:\n    build: .\n    ports:\n      - \"8080:8080\"\n    environment:\n      - NODE_ENV=production\n      - PORT=8080\n    restart: unless-stopped\n"
    );
}

#[test]
fn service_names() {
    assert_eq!(service_name_from("my app_2"), "my-app_2");
    assert_eq!(service_name_from("a.b/c"), "abc");
    assert_eq!(service_name_from("héllo"), "hllo");
    assert_eq!(service_name_from(""), "");
    let i = info(Vec::new());
    assert!(render_compose("ÉCOLE Net", &i).starts_with("services:\n  cole-net:\n"));
    assert!(render_compose("\u{212a}ube", &i).starts_with("services:\n  kube:\n"));
}

#[test]
fn dockerignore_gets_the_generated_files() {
    let mut i = info(Vec::new());
    assert_eq!(
        render_dockerignore(&i),
        ".git\n*.md\nDockerfile\ndocker-compose*.yml\n.dockerignore\n"
    );
    i.dockerignore_entries = strings(&["Dockerfile", "target", ".dockerignore"]);
    assert_eq!(
        render_dockerignore(&i),
        "Dockerfile\ntarget\n.dockerignore\ndocker-compose*.yml\n"
    );
    i.dockerignore_entries = Vec::new();
    assert_eq!(render_dockerignore(&i), "Dockerfile\ndocker-compose*.yml\n.dockerignore\n");
}

#[test]
fn static_site_is_the_fallback() {
    let found = scan(&snapshot(&["index.html", "style.css"])).unwrap().unwrap();
    assert_eq!(found.family, "Static Site");
    assert_eq!(found.framework, Framework::StaticSite);
    assert_eq!(found.port, 80);
    assert_eq!(found.start_cmd, "nginx -g 'daemon off;'");
    assert_eq!(found.install_cmd, "");
    assert!(!found.has_lockfile);
    assert_eq!(found.dockerignore_entries, strings(&[".git", "*.md", ".env*", ".vscode", ".idea"]));
    assert_eq!(
        render_dockerfile(&found),
        "FROM nginx:alpine\nWORKDIR /usr/share/nginx/html\nCOPY . .\nEXPOSE 80\nCMD [\"nginx\", \"-g\", \"daemon off;\"]\n"
    );
}

#[test]
fn static_site_needs_an_index_and_no_language_marker() {
    assert!(static_site::scan(&snapshot(&["style.css"])).is_none());
    assert!(static_site::scan(&snapshot(&[])).is_none());
    for marker in ["package.json", "Cargo.toml", "go.mod", "requirements.txt", "pyproject.toml"] {
        assert!(static_site::scan(&snapshot(&["index.html", marker])).is_none());
    }
    assert!(static_site::scan(&snapshot(&["README.md", "index.html"])).is_some());
}

#[test]
fn snapshot_knows_its_files() {
    let s = snapshot(&["a", "b/c"]);
    assert!(s.has_file("a"));
    assert!(s.has_file("b/c"));
    assert!(!s.has_file("b"));
}

#[test]
fn snapshot_reads_what_was_read() {
    let s = project(&[("a", Some("one")), ("b", None), ("a", Some("two"))]);
    assert_eq!(s.read("a").map(|t| t.as_str()), Some("one"));
    assert_eq!(s.read("b"), None);
    assert_eq!(s.read("c"), None);
    assert!(s.has_file("b"));
}

#[test]
fn nothing_recognised_is_no_match() {
    assert!(scan(&snapshot(&["README.md"])).unwrap().is_none());
    assert!(scan(&snapshot(&[])).unwrap().is_none());
}

#[test]
fn go_module() {
    let dir = project(&[
        ("go.mod", Some("module github.com/acme/shop-api\n\ngo 1.21.4\n\nrequire x v1\n")),
        ("go.sum", None),
    ]);
    let info = scan(&dir).unwrap().unwrap();
    assert_eq!(info.family, "Go");
    assert_eq!(info.framework, Framework::Go);
    assert_eq!(info.version.as_deref(), Some("1.21"));
    assert_eq!(info.binary_name.as_deref(), Some("shop-api"));
    assert_eq!(info.start_cmd, "./shop-api");
    assert_eq!(info.build_cmd.as_deref(), Some("CGO_ENABLED=0 go build -o shop-api ."));
    assert!(info.has_lockfile);
    assert_eq!(info.port, 8080);
    assert_eq!(
        render_dockerfile(&info),
        "FROM golang:1.21-alpine AS builder\nWORKDIR /app\nCOPY go.mod go.sum ./\nRUN go mod download\nCOPY . .\nRUN CGO_ENABLED=0 go build -o shop-api .\n\nFROM alpine:3.20\nWORKDIR /app\nRUN apk add --no-cache ca-certificates\nCOPY --from=builder /app/shop-api .\nEXPOSE 8080\nCMD [\"./shop-api\"]\n"
    );
}

#[test]
fn go_module_defaults() {
    let dir = project(&[("go.mod", Some(""))]);
    let info = gomod::scan(&dir).unwrap().unwrap();
    assert_eq!(info.version.as_deref(), Some("1.22"));
    assert_eq!(info.binary_name.as_deref(), Some("app"));
    assert!(!info.has_lockfile);
    assert_eq!(info.dockerfile_stages[0].instructions[0], "COPY go.mod go.sum* ./");
    assert!(gomod::scan(&snapshot(&["main.go"])).unwrap().is_none());
}

#[test]
fn go_module_that_cannot_be_read_fails_the_scan() {
    let e = scan(&snapshot(&["go.mod"])).unwrap_err();
    assert_eq!(e.file, "go.mod");
    assert_eq!(e.message(), "Cannot read go.mod");
    let e = scan(&snapshot(&["Cargo.toml", "index.html"])).unwrap_err();
    assert_eq!(e.file, "Cargo.toml");
}

#[test]
fn go_version_and_module_lines() {
    assert_eq!(gomod::detect_go_version("module x\n  go 1.22.1  \n"), "1.22");
    assert_eq!(gomod::detect_go_version("go 1\n"), "1");
    assert_eq!(gomod::detect_go_version("go go 1.20.3\n"), "1.20");
    assert_eq!(gomod::detect_go_version("golang 1.20\n"), "1.22");
    assert_eq!(gomod::detect_go_version("go 1.19\ngo 1.20\n"), "1.19");
    assert_eq!(gomod::detect_module_name("go 1.2\nmodule   example.com/a/b \n"), "example.com/a/b");
    assert_eq!(gomod::detect_module_name("go 1.2\n"), "app");
    assert_eq!(gomod::last_path_part("example.com/a/b"), "b");
    assert_eq!(gomod::last_path_part("plain"), "plain");
    assert_eq!(gomod::last_path_part("dir/"), "");
    assert_eq!(gomod::shorten_version("3.12.1"), "3.12");
    assert_eq!(gomod::shorten_version("3"), "3");
}

#[test]
fn rust_package() {
    let manifest = "[package]\nname = \"ops-server\"\nversion = \"0.1.0\"\n\n[dependencies]\nname = \"nope\"\n";
    let dir = project(&[("Cargo.toml", Some(manifest)), ("Cargo.lock", None)]);
    let info = scan(&dir).unwrap().unwrap();
    assert_eq!(info.framework, Framework::Rust);
    assert_eq!(info.binary_name.as_deref(), Some("ops-server"));
    assert_eq!(info.package_manager.as_deref(), Some("cargo"));
    assert_eq!(info.start_cmd, "./ops-server");
    assert_eq!(info.version, None);
    assert!(info.has_lockfile);
    assert_eq!(info.dockerignore_entries[0], "target");
    assert_eq!(info.dockerfile_stages[0].instructions[0], "COPY Cargo.toml Cargo.lock ./");
    assert_eq!(
        info.dockerfile_stages[1].instructions[1],
        "COPY --from=builder /app/target/release/ops-server ."
    );
}

#[test]
fn rust_binary_name() {
    assert_eq!(rust::detect_binary_name("[package]\nname = \"a\"\n[[bin]]\nname = 'b'\n"), "b");
    assert_eq!(rust::detect_binary_name("[[bin]]\npath = \"x\"\n[lib]\nname = \"l\"\n[package]\nname=\"p\"\n"), "p");
    assert_eq!(rust::detect_binary_name("name = \"loose\"\n"), "app");
    assert_eq!(rust::detect_binary_name(""), "app");
    assert_eq!(rust::detect_binary_name("[package]\nnamespace = \"ns\"\n"), "ns");
    assert_eq!(rust::extract_toml_string("name = \"my-app\""), Some("my-app".to_string()));
    assert_eq!(rust::extract_toml_string("name = 'x' # = y"), Some("x' #".to_string()));
    assert_eq!(rust::extract_toml_string("name"), None);
    assert_eq!(rust::extract_toml_string("a==b"), Some("".to_string()));
}

const NEXT_PKG: &str = r#"{
  "name": "shop",
  "dependencies": { "next": "14.0.0", "react": "18" },
  "scripts": { "dev": "next dev -p 4000", "build": "next build", "start": "next start" },
  "engines": { "node": ">=20.1" }
}"#;

#[test]
fn nextjs_project() {
    let dir = project(&[
        ("package.json", Some(NEXT_PKG)),
        ("pnpm-lock.yaml", None),
        ("next.config.js", Some("module.exports = { output: 'standalone' }")),
    ]);
    let info = scan(&dir).unwrap().unwrap();
    assert_eq!(info.family, "Next.js");
    assert_eq!(info.framework, Framework::NextJs);
    assert_eq!(info.version.as_deref(), Some("20"));
    assert_eq!(info.port, 4000);
    assert_eq!(info.package_manager.as_deref(), Some("pnpm"));
    assert_eq!(info.install_cmd, "pnpm install --frozen-lockfile");
    assert_eq!(info.build_cmd.as_deref(), Some("pnpm run build"));
    assert_eq!(info.start_cmd, "node server.js");
    assert_eq!(info.env_vars, vec![("NODE_ENV".to_string(), "production".to_string())]);
    assert!(info.has_lockfile);
    assert!(info.notes.is_empty());
    assert_eq!(info.dockerfile_stages.len(), 3);
    assert_eq!(info.dockerfile_stages[0].name.as_deref(), Some("deps"));
    assert_eq!(info.dockerfile_stages[0].base_image, "node:20-alpine");
    assert_eq!(
        info.dockerfile_stages[0].instructions,
        strings(&["COPY package.json pnpm-lock.yaml* ./", "RUN pnpm install --frozen-lockfile"])
    );
    assert_eq!(info.dockerfile_stages[1].instructions[2], "RUN pnpm run build");
    assert_eq!(info.dockerfile_stages[2].expose, Some(4000));
    assert_eq!(info.dockerfile_stages[2].cmd, Some(strings(&["node", "server.js"])));
    assert_eq!(info.dockerignore_entries.len(), 10);
}

#[test]
fn nextjs_without_standalone_gets_a_note() {
    let dir = project(&[("package.json", Some(NEXT_PKG)), ("next.config.ts", Some("export default {}"))]);
    let info = node::scan_nextjs(&dir).unwrap();
    assert_eq!(
        info.notes,
        strings(&["Add `output: 'standalone'` to next.config.js/ts for optimal Docker builds"])
    );
    assert_eq!(info.package_manager.as_deref(), Some("npm"));
    assert_eq!(info.install_cmd, "npm ci");
}

#[test]
fn node_version_sources() {
    let with = |extra: &[(&str, Option<&str>)], pkg: &str| {
        let mut files = vec![("package.json", Some(pkg))];
        files.extend_from_slice(extra);
        node::scan_generic(&project(&files)).unwrap().version.unwrap()
    };
    assert_eq!(with(&[(".nvmrc", Some("v18.17.0\n"))], NEXT_PKG), "18");
    assert_eq!(with(&[(".nvmrc", Some("lts/iron")), (".node-version", Some("21.1"))], NEXT_PKG), "21");
    assert_eq!(with(&[(".nvmrc", Some("lts/iron"))], NEXT_PKG), "20");
    assert_eq!(with(&[], "{}"), "22");
    assert_eq!(with(&[], r#"{"engines":{"node":"latest"}}"#), "22");
    assert_eq!(with(&[], r#"{"engines":{"node":"^16 || 18"}}"#), "16");
    assert_eq!(with(&[(".nvmrc", Some("+19"))], "{}"), "+19");
}

#[test]
fn ports_from_scripts() {
    let port = |pkg: &str| node::scan_generic(&project(&[("package.json", Some(pkg))])).unwrap().port;
    assert_eq!(port("{}"), 3000);
    assert_eq!(port(r#"{"scripts":{"start":"node s.js --port 8081"}}"#), 8081);
    assert_eq!(port(r#"{"scripts":{"start":"node s.js --port=8082"}}"#), 8082);
    assert_eq!(port(r#"{"scripts":{"start":"node s.js","dev":"vite -p 5173"}}"#), 5173);
    assert_eq!(port(r#"{"scripts":{"serve":"serve -p 99999 --port 70"}}"#), 70);
    assert_eq!(port(r#"{"scripts":{"start":"x --port"}}"#), 3000);
    assert_eq!(port(r#"{"scripts":{"start":"x --port abc -p 81"}}"#), 81);
    assert_eq!(port(r#"{"scripts":{"start":["--port","1"]}}"#), 3000);
}

#[test]
fn nuxt_project() {
    let dir = project(&[
        ("package.json", Some(r#"{"dependencies":{"nuxt":"3"}}"#)),
        ("yarn.lock", None),
    ]);
    let info = scan(&dir).unwrap().unwrap();
    assert_eq!(info.framework, Framework::NuxtJs);
    assert_eq!(info.family, "Nuxt");
    assert_eq!(info.start_cmd, "node server/index.mjs");
    assert_eq!(info.dockerfile_stages.len(), 2);
    assert_eq!(
        info.dockerfile_stages[0].instructions,
        strings(&[
            "COPY package.json yarn.lock* ./",
            "RUN yarn install --frozen-lockfile",
            "COPY . .",
            "RUN yarn run build"
        ])
    );
    assert_eq!(info.dockerfile_stages[1].instructions, strings(&["COPY --from=builder /app/.output ./"]));
    assert_eq!(info.dockerfile_stages[1].cmd, Some(strings(&["node", "server/index.mjs"])));
}

#[test]
fn remix_project() {
    let dir = project(&[
        ("package.json", Some(r#"{"dependencies":{"@remix-run/react":"2"}}"#)),
        ("bun.lock", None),
    ]);
    let info = scan(&dir).unwrap().unwrap();
    assert_eq!(info.framework, Framework::RemixJs);
    assert_eq!(info.start_cmd, "bun run start");
    assert_eq!(info.build_cmd.as_deref(), Some("bun run build"));
    assert_eq!(info.dockerfile_stages.len(), 3);
    assert_eq!(info.dockerfile_stages[2].cmd, Some(strings(&["bun", "run", "start"])));
    assert_eq!(info.dockerfile_stages[2].instructions.len(), 5);
    assert_eq!(
        info.dockerfile_stages[0].instructions[0],
        "COPY package.json bun.lockb* bun.lock* ./"
    );
}

#[test]
fn vite_single_page_application() {
    let dir = project(&[("package.json", Some(r#"{"devDependencies":{"vite":"5"}}"#))]);
    let info = scan(&dir).unwrap().unwrap();
    assert_eq!(info.framework, Framework::ViteSpa);
    assert_eq!(info.port, 80);
    assert!(info.env_vars.is_empty());
    assert_eq!(info.start_cmd, "nginx -g 'daemon off;'");
    assert_eq!(info.dockerfile_stages[1].base_image, "nginx:alpine");
    assert_eq!(info.dockerfile_stages[1].workdir, "/usr/share/nginx/html");
    assert_eq!(info.dockerfile_stages[1].instructions, strings(&["COPY --from=builder /app/dist ."]));
    let with_server = project(&[(
        "package.json",
        Some(r#"{"devDependencies":{"vite":"5"},"dependencies":{"express":"4"}}"#),
    )]);
    assert!(node::scan_vite_spa(&with_server).is_none());
    assert_eq!(scan(&with_server).unwrap().unwrap().framework, Framework::GenericNode);
}

#[test]
fn generic_node_project() {
    let dir = project(&[(
        "package.json",
        Some(r#"{"main":"src/server.js","scripts":{"build":"tsc"}}"#),
    )]);
    let info = node::scan_generic(&dir).unwrap();
    assert_eq!(info.framework, Framework::GenericNode);
    assert_eq!(info.start_cmd, "node src/server.js");
    assert_eq!(info.build_cmd.as_deref(), Some("npm run build"));
    assert_eq!(
        info.dockerfile_stages[0].instructions,
        strings(&["COPY package.json package-lock.json* ./", "RUN npm ci", "COPY . .", "RUN npm run build"])
    );
    assert_eq!(info.dockerfile_stages[0].cmd, Some(strings(&["node", "src/server.js"])));
    let bare = node::scan_generic(&project(&[("package.json", Some("{}"))])).unwrap();
    assert_eq!(bare.start_cmd, "node index.js");
    assert_eq!(bare.build_cmd, None);
    assert_eq!(bare.dockerfile_stages[0].instructions.len(), 3);
    let started = node::scan_generic(&project(&[(
        "package.json",
        Some(r#"{"main":"x.js","scripts":{"start":"node x.js"}}"#),
    )]))
    .unwrap();
    assert_eq!(started.start_cmd, "npm run start");
}

#[test]
fn package_file_that_is_no_json_is_no_node_project() {
    assert!(node::scan_generic(&project(&[("package.json", Some("{ nope"))])).is_none());
    assert!(node::scan_generic(&project(&[("package.json", None)])).is_none());
    assert!(node::scan_nextjs(&snapshot(&[])).is_none());
    assert_eq!(node::lockfile_copy("pnpm"), "COPY package.json pnpm-lock.yaml* ./");
    assert_eq!(node::lockfile_copy("other"), "COPY package.json package-lock.json* ./");
}

#[test]
fn django_project() {
    let manage = "import os\nos.environ.setdefault('DJANGO_SETTINGS_MODULE', 'shop.settings')\n";
    let dir = project(&[
        ("manage.py", Some(manage)),
        ("requirements.txt", Some("Django==5.0\npsycopg2\n")),
        (".python-version", Some("3.11.8\n")),
    ]);
    let info = scan(&dir).unwrap().unwrap();
    assert_eq!(info.framework, Framework::Django);
    assert_eq!(info.version.as_deref(), Some("3.11"));
    assert_eq!(info.entry_point.as_deref(), Some("shop.wsgi:application"));
    assert_eq!(info.start_cmd, "gunicorn shop.wsgi:application --bind 0.0.0.0:8000");
    assert_eq!(info.build_cmd.as_deref(), Some("python manage.py collectstatic --noinput"));
    assert_eq!(info.package_manager.as_deref(), Some("pip"));
    assert_eq!(info.install_cmd, "pip install --no-cache-dir -r requirements.txt");
    assert_eq!(info.notes, strings(&["Add `gunicorn` to requirements.txt for production"]));
    assert!(!info.has_lockfile);
    assert_eq!(info.port, 8000);
    assert_eq!(info.dockerfile_stages[0].base_image, "python:3.11-slim");
    assert_eq!(
        info.dockerfile_stages[0].instructions,
        strings(&[
            "COPY requirements.txt ./",
            "RUN pip install --no-cache-dir -r requirements.txt",
            "COPY . .",
            "RUN python manage.py collectstatic --noinput 2>/dev/null || true"
        ])
    );
    assert_eq!(
        info.dockerfile_stages[0].cmd,
        Some(strings(&["gunicorn", "shop.wsgi:application", "--bind", "0.0.0.0:8000"]))
    );
    assert_eq!(info.dockerignore_entries.len(), 11);
}

#[test]
fn django_wsgi_module() {
    let wsgi = |manage: &str| python::detect_django_wsgi(&project(&[("manage.py", Some(manage))]));
    assert_eq!(
        wsgi("os.environ.setdefault(\"DJANGO_SETTINGS_MODULE\", \"a.b.settings\")"),
        Some("a.b.wsgi:application".to_string())
    );
    assert_eq!(wsgi("DJANGO_SETTINGS_MODULE = 'x', 'settings'"), None);
    assert_eq!(wsgi("# DJANGO_SETTINGS_MODULE\nx('DJANGO_SETTINGS_MODULE', 'p.s')"), Some("p.wsgi:application".to_string()));
    assert_eq!(
        wsgi("x('DJANGO_SETTINGS_MODULE', \"p.s\")"),
        Some("p.wsgi:application".to_string())
    );
    assert_eq!(wsgi("x(\"DJANGO_SETTINGS_MODULE\", 'p.s')"), None);
    assert_eq!(wsgi(""), None);
    assert_eq!(python::detect_django_wsgi(&snapshot(&["manage.py"])), None);
    let dir = project(&[("manage.py", Some("")), ("requirements.txt", Some("django\ngunicorn\n"))]);
    let info = python::scan_django(&dir).unwrap();
    assert_eq!(info.entry_point.as_deref(), Some("myapp.wsgi:application"));
    assert!(info.notes.is_empty());
}

#[test]
fn python_dependencies() {
    let reqs = |text: &str| project(&[("requirements.txt", Some(text))]);
    assert!(python::has_python_dep(&reqs("Flask>=2\n"), "flask"));
    assert!(python::has_python_dep(&reqs("  flask \n"), "flask"));
    assert!(python::has_python_dep(&reqs("flask[async]==2\n"), "flask"));
    assert!(!python::has_python_dep(&reqs("flask2\n"), "flask"));
    assert!(!python::has_python_dep(&reqs("flaskr\n"), "flask"));
    assert!(!python::has_python_dep(&reqs("# flask\n"), "flask"));
    assert!(python::has_python_dep(&reqs("flask-login\n"), "flask"));
    assert!(python::has_python_dep(&project(&[("pyproject.toml", Some("deps = [\"FastAPI\"]"))]), "fastapi"));
    assert!(python::has_python_dep(&project(&[("Pipfile", Some("[packages]\nDjango = \"*\""))]), "django"));
    assert!(!python::has_python_dep(&snapshot(&["requirements.txt"]), "django"));
}

#[test]
fn python_versions() {
    let ver = |files: &[(&str, Option<&str>)]| python::detect_python_version(&project(files));
    assert_eq!(ver(&[]), "3.12");
    assert_eq!(ver(&[(".python-version", Some("3.10.2"))]), "3.10");
    assert_eq!(ver(&[(".python-version", Some("pypy3"))]), "pypy3");
    assert_eq!(ver(&[(".python-version", Some("  \n")), ("pyproject.toml", Some("requires-python = \">=3.9\""))]), "3.9");
    assert_eq!(ver(&[("pyproject.toml", Some("[project]\nrequires-python = \"~=3.8.1\"\n"))]), "3.8");
    assert_eq!(ver(&[("pyproject.toml", Some("requires-python = \"any\"\nrequires-python = \">3\""))]), "3");
    assert_eq!(ver(&[("pyproject.toml", Some("name = \"x\""))]), "3.12");
}

#[test]
fn python_installers() {
    let cmd = |files: &[(&str, Option<&str>)]| python::detect_install_cmd(&project(files));
    assert_eq!(cmd(&[("pyproject.toml", Some("[tool.poetry]\n")), ("Pipfile", None)]).0, "poetry");
    assert_eq!(
        cmd(&[("pyproject.toml", Some("[tool.poetry]\n"))]).1,
        "pip install poetry && poetry install --no-dev"
    );
    assert_eq!(cmd(&[("pyproject.toml", Some("[project]")), ("Pipfile", None)]).0, "pipenv");
    assert_eq!(
        cmd(&[("Pipfile", None), ("requirements.txt", None)]).1,
        "pip install pipenv && pipenv install --deploy --system"
    );
    assert_eq!(cmd(&[("pyproject.toml", Some("[project]"))]).1, "pip install --no-cache-dir .");
    assert_eq!(cmd(&[("pyproject.toml", None)]).1, "pip install --no-cache-dir .");
    assert_eq!(cmd(&[]).1, "pip install --no-cache-dir -r requirements.txt");
    assert_eq!(python::copy_deps_instruction("poetry"), "COPY pyproject.toml poetry.lock* ./");
    assert_eq!(python::copy_deps_instruction("pipenv"), "COPY Pipfile Pipfile.lock* ./");
    assert_eq!(python::copy_deps_instruction("pip"), "COPY requirements.txt ./");
}

#[test]
fn flask_project() {
    let dir = project(&[("requirements.txt", Some("flask\ngunicorn\n")), ("wsgi.py", None)]);
    let info = scan(&dir).unwrap().unwrap();
    assert_eq!(info.framework, Framework::Flask);
    assert_eq!(info.port, 5000);
    assert_eq!(info.entry_point.as_deref(), Some("wsgi:app"));
    assert_eq!(info.start_cmd, "gunicorn wsgi:app --bind 0.0.0.0:5000");
    assert_eq!(info.build_cmd, None);
    assert!(info.notes.is_empty());
    assert_eq!(info.dockerfile_stages[0].expose, Some(5000));
    assert_eq!(info.dockerfile_stages[0].instructions.len(), 3);
    assert_eq!(python::detect_flask_entry(&snapshot(&["main.py", "application.py"])), "application:app");
    assert_eq!(python::detect_flask_entry(&snapshot(&["main.py"])), "main:app");
    assert_eq!(python::detect_flask_entry(&snapshot(&["app/__init__.py"])), "app:app");
}

#[test]
fn fastapi_project() {
    let dir = project(&[("requirements.txt", Some("fastapi\n")), ("app/main.py", None)]);
    let info = scan(&dir).unwrap().unwrap();
    assert_eq!(info.framework, Framework::FastApi);
    assert_eq!(info.entry_point.as_deref(), Some("app.main:app"));
    assert_eq!(info.start_cmd, "uvicorn app.main:app --host 0.0.0.0 --port 8000");
    assert_eq!(
        info.dockerfile_stages[0].cmd,
        Some(strings(&["uvicorn", "app.main:app", "--host", "0.0.0.0", "--port", "8000"]))
    );
    assert_eq!(info.notes, strings(&["Add `uvicorn` to requirements.txt for production"]));
    assert_eq!(python::detect_fastapi_entry(&snapshot(&["src/main.py"])), "src.main:app");
    assert_eq!(python::detect_fastapi_entry(&snapshot(&["app.py", "main.py"])), "main:app");
    assert_eq!(python::detect_fastapi_entry(&snapshot(&[])), "main:app");
}

#[test]
fn generic_python_project() {
    let dir = project(&[("requirements.txt", Some("requests\n")), ("app.py", None)]);
    let info = scan(&dir).unwrap().unwrap();
    assert_eq!(info.framework, Framework::GenericPython);
    assert_eq!(info.start_cmd, "python app.py");
    assert_eq!(info.dockerfile_stages[0].cmd, Some(strings(&["python", "app.py"])));
    assert_eq!(info.entry_point, None);
    assert!(python::scan_generic(&snapshot(&["main.py"])).is_none());
    assert_eq!(python::scan_generic(&snapshot(&["Pipfile"])).unwrap().start_cmd, "python main.py");
}

#[test]
fn frameworks_come_before_languages() {
    let dir = project(&[
        ("package.json", Some(r#"{"dependencies":{"next":"14","nuxt":"3"}}"#)),
        ("requirements.txt", Some("django\n")),
        ("manage.py", Some("")),
        ("go.mod", Some("module x")),
        ("index.html", None),
    ]);
    assert_eq!(scan(&dir).unwrap().unwrap().framework, Framework::NextJs);
    let dir = project(&[
        ("package.json", Some("{}")),
        ("requirements.txt", Some("flask\n")),
        ("go.mod", Some("module x")),
    ]);
    assert_eq!(scan(&dir).unwrap().unwrap().framework, Framework::Flask);
    let dir = project(&[("package.json", Some("{}")), ("requirements.txt", Some("requests\n"))]);
    assert_eq!(scan(&dir).unwrap().unwrap().framework, Framework::GenericNode);
    let dir = project(&[("requirements.txt", Some("requests\n")), ("go.mod", None)]);
    assert_eq!(scan(&dir).unwrap().unwrap().framework, Framework::GenericPython);
    let dir = project(&[("go.mod", Some("module x")), ("Cargo.toml", None)]);
    assert_eq!(scan(&dir).unwrap().unwrap().framework, Framework::Go);
}
