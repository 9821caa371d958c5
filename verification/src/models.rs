//! The template corpus: an immutable tree of directories and files,
//! constructed once per scaffold run. File contents are plain template
//! text carrying placeholder tokens and conditional markers; the resolver
//! turns them into final text at materialization time.
//!
//! A filename stored with the `_.` prefix stands for a hidden file: the
//! planner rewrites the prefix to a literal leading dot, so the corpus can
//! keep dotfiles under ordinary names.

use vstd::prelude::*;
use vstd::string::StringExecFns;

use crate::chars::{dec_digits, replace_all, replace_all_vec, str_to_chars, chars_to_string};
use crate::resolver::{token_port, token_project};

verus! {

/// One file template: a name (possibly with the hidden-file prefix) and
/// raw template text.
pub struct ProjectFile {
    pub filename: String,
    pub content: String,
}

/// One directory node. A node with neither files nor subdirectories is a
/// valid leaf, used to create empty directories.
pub struct ProjectDir {
    pub dirname: String,
    pub files: Option<Vec<ProjectFile>>,
    pub dirs: Option<Vec<ProjectDir>>,
}

/// The files of a node, an empty sequence when absent.
pub open spec fn files_of(d: ProjectDir) -> Seq<ProjectFile> {
    match d.files {
        Some(fs) => fs@,
        None => Seq::empty(),
    }
}

/// The subdirectories of a node, an empty sequence when absent.
pub open spec fn dirs_of(d: ProjectDir) -> Seq<ProjectDir> {
    match d.dirs {
        Some(ds) => ds@,
        None => Seq::empty(),
    }
}

/// The placeholder under which corpus text stores the module import path
/// (the namespace placeholder followed by the project-name placeholder),
/// spliced by the builders that take a concrete import path.
pub open spec fn import_token() -> Seq<char> {
    "github.com/__username__/go_boilerplate"@
}

/// Replaces every occurrence of `token` in `template` by `value`.
fn splice(template: &str, token: &str, value: &str) -> (r: String)
    ensures
        r@ == replace_all(template@, token@, value@),
{
    let tv = str_to_chars(template);
    let tok = str_to_chars(token);
    let val = str_to_chars(value);
    let out = replace_all_vec(&tv, &tok, &val);
    chars_to_string(&out)
}

// ---------------------------------------------------------------------------
// Root-level files
// ---------------------------------------------------------------------------

/// An empty README, for the user to fill in.
pub fn readme() -> (r: ProjectFile)
    ensures
        r.filename@ == "README.md"@,
        r.content@ == Seq::<char>::empty(),
{
    ProjectFile { filename: "README.md".to_owned(), content: String::new() }
}

/// The development `.env` file, holding the chosen port.
pub fn dotenvf(port: u32) -> (r: ProjectFile)
    ensures
        r.filename@ == "_.env"@,
        r.content@ == "PORT=\""@ + dec_digits(port as int) + "\""@,
{
    let digits = chars_to_string(&crate::chars::u32_to_chars(port));
    let c = "PORT=\"".to_owned().concat(digits.as_str()).concat("\"");
    ProjectFile { filename: "_.env".to_owned(), content: c }
}

/// The production `.prod.env` file, holding the chosen port.
pub fn prodenv(port: u32) -> (r: ProjectFile)
    ensures
        r.filename@ == "_.prod.env"@,
        r.content@ == "PORT=\""@ + dec_digits(port as int) + "\""@,
{
    let digits = chars_to_string(&crate::chars::u32_to_chars(port));
    let c = "PORT=\"".to_owned().concat(digits.as_str()).concat("\"");
    ProjectFile { filename: "_.prod.env".to_owned(), content: c }
}

pub open spec fn dockerignore_text() -> Seq<char> {
    "build\nassets\n.vscode\n*compose*\nDockerfile"@
}

pub fn dockerignore() -> (r: ProjectFile)
    ensures
        r.filename@ == "_.dockerignore"@,
        r.content@ == dockerignore_text(),
{
    ProjectFile {
        filename: "_.dockerignore".to_owned(),
        content: "build\nassets\n.vscode\n*compose*\nDockerfile".to_owned(),
    }
}

pub open spec fn gitignore_text() -> Seq<char> {
    "node_modules\n*.env\n.env\ndata\nvendor\nnode_modules\n.gomon\n.vscode\n*.log\nstatic/dist/*\nbuild/postgres\ndata\n*.pdf\nbuild\n*.tar\ntmp\n"@
}

pub fn gitignore() -> (r: ProjectFile)
    ensures
        r.filename@ == "_.gitignore"@,
        r.content@ == gitignore_text(),
{
    ProjectFile {
        filename: "_.gitignore".to_owned(),
        content: "node_modules\n*.env\n.env\ndata\nvendor\nnode_modules\n.gomon\n.vscode\n*.log\nstatic/dist/*\nbuild/postgres\ndata\n*.pdf\nbuild\n*.tar\ntmp\n".to_owned(),
    }
}

/// The module import path for a project: the namespace identifier and the
/// project name under the code-hosting domain.
pub fn import_path(username: &str, project: &str) -> (r: String)
    ensures
        r@ == "github.com/"@ + username@ + "/"@ + project@,
{
    "github.com/".to_owned().concat(username).concat("/").concat(project)
}

// ---------------------------------------------------------------------------
// The `cmd` subtree: boot configuration and the server entry point
// ---------------------------------------------------------------------------

pub open spec fn config_go_text() -> Seq<char> {
    "package boot\n\nimport (\n\t\"fmt\"\n\n\t\"github.com/joho/godotenv\"\n)\n\nfunc LoadEnvVariables() error {\n\terr := godotenv.Load(\".env\")\n\tif err != nil {\n\t\treturn fmt.Errorf(\"cannot load environment variables\")\n\t}\n\n\treturn err\n}\n"@
}

pub open spec fn main_go_template() -> Seq<char> {
    "package main\nimport (\n    \"context\"\n\t\"fmt\"\n\t\"os\"\n    \"os/signal\"\n\t\"time\"\n\n\t\"github.com/__username__/go_boilerplate/cmd/boot\"\n    \"github.com/__username__/go_boilerplate/internal/models\"\n)\n\nfunc main() {\n\terr := boot.LoadEnvVariables()\n\tif err != nil {\n\t\tpanic(err)\n\t}\n\n\tport := os.Getenv(\"PORT\")\n\n\t//==models.Setup(os.Getenv(\"DSN\"))\n\n\te := createRouter()\n\n    go func() {\n\t\tfmt.Printf(\"Running Server on port %s\", port)\n\t\te.Logger.Fatal(e.Start(\":\" + port))\n\t}()\n\n\tquit := make(chan os.Signal, 1)\n\tsignal.Notify(quit, os.Interrupt)\n\t<-quit\n\tctx, cancel := context.WithTimeout(context.Background(), 10*time.Second)\n\tdefer cancel()\n\tif err := e.Shutdown(ctx); err != nil {\n\t\te.Logger.Fatal(err)\n\t}\n}"@
}

pub open spec fn router_go_template() -> Seq<char> {
    "package main\n\nimport (\n\t\"bytes\"\n\t\"context\"\n\t\"net/http\"\n    \"time\"\n\n\t\"github.com/__username__/go_boilerplate/internal/controllers\"\n\t\"github.com/__username__/go_boilerplate/internal/models\"\n\t\"github.com/__username__/go_boilerplate/views\"\n\n\t\"github.com/labstack/echo/v4\"\n\t\"github.com/labstack/echo/v4/middleware\"\n    \"github.com/labstack/gommon/log\"\n)\n\nfunc createRouter() *echo.Echo {\n\te := echo.New()\n\te.Use(middleware.Logger())\n    e.Use(middleware.Recover())\n\te.Use(middleware.RemoveTrailingSlash())\n\te.Logger.SetLevel(log.INFO)\n    e.GET(\"/healthcheck\", func(c echo.Context) error {\n\t\ttime.Sleep(5 * time.Second)\n\t\treturn c.JSON(http.StatusOK, \"OK\")\n\t})\n\n\te.Static(\"/assets\", \"./static\")\n\n\te.GET(\"/\", controllers.Index())\n\n\te.HTTPErrorHandler = serverErrorHandler\n\n\treturn e\n}\n\nfunc serverErrorHandler(err error, c echo.Context) {\n\tcode := http.StatusInternalServerError\n\tif he, ok := err.(*echo.HTTPError); ok {\n\t\tcode = he.Code\n\t}\n\tdata := models.GetDefaultSite(\"Error\")\n\n\tbuf := bytes.NewBuffer(nil)\n\tif code < 500 {\n\t\t_ = views.ClientError(data, err).Render(context.Background(), buf)\n\n\t} else {\n\t\t_ = views.ServerError(data, err).Render(context.Background(), buf)\n\t}\n\n\t_ = c.Blob(200, \"text/html; charset=utf-8\", buf.Bytes())\n\n}\n"@
}

/// The shape of the `cmd` subtree, with the import path spliced in.
pub open spec fn is_cmd_dir(r: ProjectDir, imp: Seq<char>) -> bool {
    &&& r.dirname@ == "cmd"@
    &&& r.files is None
    &&& dirs_of(r).len() == 2
    &&& dirs_of(r)[0].dirname@ == "boot"@
    &&& dirs_of(r)[0].dirs is None
    &&& files_of(dirs_of(r)[0]).len() == 1
    &&& files_of(dirs_of(r)[0])[0].filename@ == "config.go"@
    &&& files_of(dirs_of(r)[0])[0].content@ == config_go_text()
    &&& dirs_of(r)[1].dirname@ == "server"@
    &&& dirs_of(r)[1].dirs is None
    &&& files_of(dirs_of(r)[1]).len() == 2
    &&& files_of(dirs_of(r)[1])[0].filename@ == "main.go"@
    &&& files_of(dirs_of(r)[1])[0].content@ == replace_all(main_go_template(), import_token(), imp)
    &&& files_of(dirs_of(r)[1])[1].filename@ == "router.go"@
    &&& files_of(dirs_of(r)[1])[1].content@ == replace_all(
        router_go_template(),
        import_token(),
        imp,
    )
}

/// The `cmd` subtree: the boot package and the server entry point, with
/// import paths under the given module path.
pub fn cmd_dir(import_str: &str) -> (r: ProjectDir)
    ensures
        is_cmd_dir(r, import_str@),
{
    let config_go = ProjectFile {
        filename: "config.go".to_owned(),
        content: "package boot\n\nimport (\n\t\"fmt\"\n\n\t\"github.com/joho/godotenv\"\n)\n\nfunc LoadEnvVariables() error {\n\terr := godotenv.Load(\".env\")\n\tif err != nil {\n\t\treturn fmt.Errorf(\"cannot load environment variables\")\n\t}\n\n\treturn err\n}\n".to_owned(),
    };
    let boot = ProjectDir { dirname: "boot".to_owned(), files: Some(vec![config_go]), dirs: None };
    let main_go = ProjectFile {
        filename: "main.go".to_owned(),
        content: splice(
            "package main\nimport (\n    \"context\"\n\t\"fmt\"\n\t\"os\"\n    \"os/signal\"\n\t\"time\"\n\n\t\"github.com/__username__/go_boilerplate/cmd/boot\"\n    \"github.com/__username__/go_boilerplate/internal/models\"\n)\n\nfunc main() {\n\terr := boot.LoadEnvVariables()\n\tif err != nil {\n\t\tpanic(err)\n\t}\n\n\tport := os.Getenv(\"PORT\")\n\n\t//==models.Setup(os.Getenv(\"DSN\"))\n\n\te := createRouter()\n\n    go func() {\n\t\tfmt.Printf(\"Running Server on port %s\", port)\n\t\te.Logger.Fatal(e.Start(\":\" + port))\n\t}()\n\n\tquit := make(chan os.Signal, 1)\n\tsignal.Notify(quit, os.Interrupt)\n\t<-quit\n\tctx, cancel := context.WithTimeout(context.Background(), 10*time.Second)\n\tdefer cancel()\n\tif err := e.Shutdown(ctx); err != nil {\n\t\te.Logger.Fatal(err)\n\t}\n}",
            "github.com/__username__/go_boilerplate",
            import_str,
        ),
    };
    let router_go = ProjectFile {
        filename: "router.go".to_owned(),
        content: splice(
            "package main\n\nimport (\n\t\"bytes\"\n\t\"context\"\n\t\"net/http\"\n    \"time\"\n\n\t\"github.com/__username__/go_boilerplate/internal/controllers\"\n\t\"github.com/__username__/go_boilerplate/internal/models\"\n\t\"github.com/__username__/go_boilerplate/views\"\n\n\t\"github.com/labstack/echo/v4\"\n\t\"github.com/labstack/echo/v4/middleware\"\n    \"github.com/labstack/gommon/log\"\n)\n\nfunc createRouter() *echo.Echo {\n\te := echo.New()\n\te.Use(middleware.Logger())\n    e.Use(middleware.Recover())\n\te.Use(middleware.RemoveTrailingSlash())\n\te.Logger.SetLevel(log.INFO)\n    e.GET(\"/healthcheck\", func(c echo.Context) error {\n\t\ttime.Sleep(5 * time.Second)\n\t\treturn c.JSON(http.StatusOK, \"OK\")\n\t})\n\n\te.Static(\"/assets\", \"./static\")\n\n\te.GET(\"/\", controllers.Index())\n\n\te.HTTPErrorHandler = serverErrorHandler\n\n\treturn e\n}\n\nfunc serverErrorHandler(err error, c echo.Context) {\n\tcode := http.StatusInternalServerError\n\tif he, ok := err.(*echo.HTTPError); ok {\n\t\tcode = he.Code\n\t}\n\tdata := models.GetDefaultSite(\"Error\")\n\n\tbuf := bytes.NewBuffer(nil)\n\tif code < 500 {\n\t\t_ = views.ClientError(data, err).Render(context.Background(), buf)\n\n\t} else {\n\t\t_ = views.ServerError(data, err).Render(context.Background(), buf)\n\t}\n\n\t_ = c.Blob(200, \"text/html; charset=utf-8\", buf.Bytes())\n\n}\n",
            "github.com/__username__/go_boilerplate",
            import_str,
        ),
    };
    let server = ProjectDir {
        dirname: "server".to_owned(),
        files: Some(vec![main_go, router_go]),
        dirs: None,
    };
    ProjectDir { dirname: "cmd".to_owned(), files: None, dirs: Some(vec![boot, server]) }
}

// ---------------------------------------------------------------------------
// The `internal` subtree: controllers, helpers, middlewares and models
// ---------------------------------------------------------------------------

pub open spec fn index_go_template() -> Seq<char> {
    "package controllers\n\nimport (\n\t\"net/http\"\n\n\t\"github.com/__username__/go_boilerplate/internal/helpers\"\n\t\"github.com/__username__/go_boilerplate/internal/models\"\n\t\"github.com/__username__/go_boilerplate/views\"\n\t\"github.com/labstack/echo/v4\"\n)\n\nfunc Index() echo.HandlerFunc {\n\treturn func(c echo.Context) error {\n\t\tdata := models.GetDefaultSite(\"Home\")\n\n\t\thtml, err := helpers.GeneratePage(views.Index(data))\n\n\t\tif err != nil {\n\t\t\treturn echo.NewHTTPError(http.StatusBadRequest, \"Could not parse page home\")\n\t\t}\n\n\t\treturn c.Blob(200, \"text/html; charset=utf-8\", html)\n\t}\n}"@
}

pub open spec fn page_go_text() -> Seq<char> {
    "package helpers\n\nimport (\n\t\"bytes\"\n\t\"context\"\n\n\t\"github.com/a-h/templ\"\n)\n\nfunc GeneratePage(page templ.Component) ([]byte, error) {\n\tbuf := bytes.NewBuffer(nil)\n\n\terr := page.Render(context.Background(), buf)\n\n\tif err != nil {\n\t\treturn []byte{}, err\n\t}\n\n\treturn buf.Bytes(), nil\n}\n"@
}

pub open spec fn site_go_text() -> Seq<char> {
    "package models\n\nimport \"time\"\n\ntype SEO struct {\n\tDescription string\n\tKeywords    string\n}\ntype Site struct {\n\tAppName  string\n\tTitle    string\n\tMetatags SEO\n\tYear     int\n}\n\nfunc GetDefaultSite(title string) Site {\n\treturn Site{\n\t\tAppName:  \"GoApp\",\n\t\tTitle:    title,\n\t\tMetatags: SEO{Description: \"App\", Keywords: \"tool\"},\n\t\tYear:     time.Now().Year(),\n\t}\n}\n"@
}

pub open spec fn database_go_text() -> Seq<char> {
    "package models\n\nimport (\n\t\"log\"\n\t\"os\"\n\n\t\"github.com/jmoiron/sqlx\"\n\t_ \"github.com/lib/pq\"\n)\n\nvar db *sqlx.DB\n\nfunc Setup(dsn string) {\n\tvar err error\n\tdb, err = sqlx.Connect(\"postgres\", dsn)\n\tif err != nil {\n        log.Fatalln(err)\n  }\n\n\terr = db.Ping()\n\tif err != nil {\n        log.Fatalln(err)\n  }\n\n\tschema, err := os.ReadFile(\"sql/init.sql\")\n\tif err != nil {\n        log.Fatalln(err)\n  }\n\n\tdb.MustExec(string(schema))\n}\n"@
}

/// The shape of the `internal` subtree.
pub open spec fn is_internal_dir(r: ProjectDir, imp: Seq<char>) -> bool {
    &&& r.dirname@ == "internal"@
    &&& r.files is None
    &&& dirs_of(r).len() == 4
    &&& dirs_of(r)[0].dirname@ == "controllers"@
    &&& dirs_of(r)[0].dirs is None
    &&& files_of(dirs_of(r)[0]).len() == 1
    &&& files_of(dirs_of(r)[0])[0].filename@ == "index.go"@
    &&& files_of(dirs_of(r)[0])[0].content@ == replace_all(
        index_go_template(),
        import_token(),
        imp,
    )
    &&& dirs_of(r)[1].dirname@ == "helpers"@
    &&& dirs_of(r)[1].dirs is None
    &&& files_of(dirs_of(r)[1]).len() == 1
    &&& files_of(dirs_of(r)[1])[0].filename@ == "page.go"@
    &&& files_of(dirs_of(r)[1])[0].content@ == page_go_text()
    &&& dirs_of(r)[2].dirname@ == "middlewares"@
    &&& dirs_of(r)[2].dirs is None
    &&& dirs_of(r)[2].files is None
    &&& dirs_of(r)[3].dirname@ == "models"@
    &&& dirs_of(r)[3].dirs is None
    &&& files_of(dirs_of(r)[3]).len() == 2
    &&& files_of(dirs_of(r)[3])[0].filename@ == "site.go"@
    &&& files_of(dirs_of(r)[3])[0].content@ == site_go_text()
    &&& files_of(dirs_of(r)[3])[1].filename@ == "database.go"@
    &&& files_of(dirs_of(r)[3])[1].content@ == database_go_text()
}

/// The `internal` subtree: controllers, page helpers, an empty
/// middlewares directory, and the site and database models. The database
/// model lives in a file whose stem is a reserved name, so it is skipped
/// when the database flag is off.
pub fn internal(import_str: &str) -> (r: ProjectDir)
    ensures
        is_internal_dir(r, import_str@),
{
    let index_go = ProjectFile {
        filename: "index.go".to_owned(),
        content: splice(
            "package controllers\n\nimport (\n\t\"net/http\"\n\n\t\"github.com/__username__/go_boilerplate/internal/helpers\"\n\t\"github.com/__username__/go_boilerplate/internal/models\"\n\t\"github.com/__username__/go_boilerplate/views\"\n\t\"github.com/labstack/echo/v4\"\n)\n\nfunc Index() echo.HandlerFunc {\n\treturn func(c echo.Context) error {\n\t\tdata := models.GetDefaultSite(\"Home\")\n\n\t\thtml, err := helpers.GeneratePage(views.Index(data))\n\n\t\tif err != nil {\n\t\t\treturn echo.NewHTTPError(http.StatusBadRequest, \"Could not parse page home\")\n\t\t}\n\n\t\treturn c.Blob(200, \"text/html; charset=utf-8\", html)\n\t}\n}",
            "github.com/__username__/go_boilerplate",
            import_str,
        ),
    };
    let controllers = ProjectDir {
        dirname: "controllers".to_owned(),
        files: Some(vec![index_go]),
        dirs: None,
    };
    let page = ProjectFile {
        filename: "page.go".to_owned(),
        content: "package helpers\n\nimport (\n\t\"bytes\"\n\t\"context\"\n\n\t\"github.com/a-h/templ\"\n)\n\nfunc GeneratePage(page templ.Component) ([]byte, error) {\n\tbuf := bytes.NewBuffer(nil)\n\n\terr := page.Render(context.Background(), buf)\n\n\tif err != nil {\n\t\treturn []byte{}, err\n\t}\n\n\treturn buf.Bytes(), nil\n}\n".to_owned(),
    };
    let helpers = ProjectDir { dirname: "helpers".to_owned(), files: Some(vec![page]), dirs: None };
    let middlewares = ProjectDir { dirname: "middlewares".to_owned(), files: None, dirs: None };
    let site = ProjectFile {
        filename: "site.go".to_owned(),
        content: "package models\n\nimport \"time\"\n\ntype SEO struct {\n\tDescription string\n\tKeywords    string\n}\ntype Site struct {\n\tAppName  string\n\tTitle    string\n\tMetatags SEO\n\tYear     int\n}\n\nfunc GetDefaultSite(title string) Site {\n\treturn Site{\n\t\tAppName:  \"GoApp\",\n\t\tTitle:    title,\n\t\tMetatags: SEO{Description: \"App\", Keywords: \"tool\"},\n\t\tYear:     time.Now().Year(),\n\t}\n}\n".to_owned(),
    };
    let database = ProjectFile {
        filename: "database.go".to_owned(),
        content: "package models\n\nimport (\n\t\"log\"\n\t\"os\"\n\n\t\"github.com/jmoiron/sqlx\"\n\t_ \"github.com/lib/pq\"\n)\n\nvar db *sqlx.DB\n\nfunc Setup(dsn string) {\n\tvar err error\n\tdb, err = sqlx.Connect(\"postgres\", dsn)\n\tif err != nil {\n        log.Fatalln(err)\n  }\n\n\terr = db.Ping()\n\tif err != nil {\n        log.Fatalln(err)\n  }\n\n\tschema, err := os.ReadFile(\"sql/init.sql\")\n\tif err != nil {\n        log.Fatalln(err)\n  }\n\n\tdb.MustExec(string(schema))\n}\n".to_owned(),
    };
    let models = ProjectDir {
        dirname: "models".to_owned(),
        files: Some(vec![site, database]),
        dirs: None,
    };
    ProjectDir {
        dirname: "internal".to_owned(),
        files: None,
        dirs: Some(vec![controllers, helpers, middlewares, models]),
    }
}

// ---------------------------------------------------------------------------
// The `views` subtree: templ components, layouts and pages
// ---------------------------------------------------------------------------

pub open spec fn header_templ_text() -> Seq<char> {
    "package components\n\ntempl Header() {\n\t<header class=\"flex justify-between items-center bg-std text-center text-primary rounded-b w-full h-24 p-4 sticky top-0 right-0 z-20\">\n\t\t<div class=\"flex items-center p-2 w-[35%]\">\n\t\t\t<img src=\"/assets/images/logo.webp\" alt=\"App Logo\" width=\"85px\" height=\"85px\"/>\n\t\t\t<h1 class=\"ml-8 text-3xl\"><a href=\"/\">Title</a></h1>\n\t\t</div>\n\t\t<nav class=\"md:w-auto\">\n\t\t\t<!-- Burger menu icon for small screens -->\n\t\t\t<div id=\"burgerMenu\" class=\"burger-menu md:hidden cursor-pointer\">\n\t\t\t\t<div id=\"bar1\" class=\"bar w-6 h-1 bg-primary my-1 rounded transition-transform transform rotate-0\"></div>\n\t\t\t\t<div id=\"bar2\" class=\"bar w-6 h-1 bg-primary my-1 rounded transition-transform transform rotate-0\"></div>\n\t\t\t\t<div id=\"bar3\" class=\"bar w-6 h-1 bg-primary my-1 rounded transition-transform transform rotate-0\"></div>\n\t\t\t</div>\n\t\t\t<!-- Navigation links for larger screens -->\n\t\t\t<ul id=\"navLinks\" class=\"nav-links md:flex flex-row space-x-4 hidden\">\n\t\t\t\t<li><a href=\"/#page1\" class=\"text-primary text-xl md:text-2xl\">Page 1</a></li>\n\t\t\t\t<li><a href=\"/#page2\" class=\"text-primary text-xl md:text-2xl\">Page 2</a></li>\n\t\t\t\t<li><a href=\"/#page3\" class=\"text-primary text-xl md:text-2xl\">Page 3</a></li>\n\t\t\t\t<li><a href=\"/#page4\" class=\"text-primary text-xl md:text-2xl\">Page 4</a></li>\n\t\t\t\t<li><a href=\"/#page5\" class=\"text-primary text-xl md:text-2xl\">Page 5</a></li>\n\t\t\t</ul>\n\t\t\t<!-- Navigation links for mobile view -->\n\t\t\t<ul id=\"mobileNavLinks\" class=\"nav-links-mobile md:hidden absolute top-24 left-0 w-full hidden z-30 transition-all ease-in\">\n\t\t\t\t<li class=\"bg-std w-full px-4 py-2\"><a href=\"/#page1\" class=\"text-primary text-center  text-xl md:text-2xl\">Page 1</a></li>\n\t\t\t\t<li class=\"bg-std w-full px-4 py-2\"><a href=\"/#page2\" class=\"text-primary text-center  text-xl md:text-2xl\">Page 2</a></li>\n\t\t\t\t<li class=\"bg-std w-full px-4 py-2\"><a href=\"/#page3\" class=\"text-primary text-center  text-xl md:text-2xl\">Page 3</a></li>\n\t\t\t\t<li class=\"bg-std w-full px-4 py-2\"><a href=\"/#page4\" class=\"text-primary text-center  text-xl md:text-2xl\">Page 4</a></li>\n\t\t\t\t<li class=\"bg-std w-full px-4 py-2\"><a href=\"/#page5\" class=\"text-primary text-center  text-xl md:text-2xl\">Page 5</a></li>\n\t\t\t</ul>\n\t\t</nav>\n\t\t<script>\n\n            var burgerMenu = document.getElementById('burgerMenu');\n            var navLinks = document.getElementById('mobileNavLinks');\n            var bar1 = document.getElementById('bar1');\n            var bar2 = document.getElementById('bar2');\n            var bar3 = document.getElementById('bar3');\n\n            burgerMenu.addEventListener('click', function () {\n                navLinks.classList.toggle('hidden');\n                  if (bar1.classList.contains('rotate-0')) {\n                    bar1.classList.remove('rotate-0');\n                    bar1.classList.add('rotate-45', 'translate-y-2');\n\n                    bar2.classList.remove('rotate-0');\n                    bar2.classList.add('opacity-0');\n\n                    bar3.classList.remove('rotate-0');\n                    bar3.classList.add('-rotate-45', '-translate-y-2');\n                } else {\n                    bar1.classList.remove('rotate-45', 'translate-y-2');\n                    bar1.classList.add('rotate-0');\n\n                    bar2.classList.remove('opacity-0');\n                    bar3.classList.remove('-rotate-45', '-translate-y-2');\n                    bar3.classList.add('rotate-0');\n                }\n            });\n\n        </script>\n\t</header>\n}\n"@
}

pub open spec fn footer_templ_text() -> Seq<char> {
    "package components\n\ntempl Footer(year string) {\n\t<footer class=\"bg-primary text-std p-3 text-center\">\n\t\t<p class=\"text-sm\">\n\t\t\t&copy; { year } GoApp. All rights reserved.\n\t\t</p>\n\t</footer>\n}\n"@
}

pub open spec fn core_templ_template() -> Seq<char> {
    "package layouts\n\nimport \"github.com/__username__/go_boilerplate/internal/models\"\nimport \"github.com/__username__/go_boilerplate/views/components\"\nimport \"strconv\"\n\ntempl CoreHTML(site models.Site) {\n\t<!DOCTYPE html>\n\t<html lang=\"en\">\n\t\t<head>\n\t\t\t<meta name=\"viewport\" content=\"width=device-width, initial-scale=1\"/>\n\t\t\t<title>{ site.AppName } | { site.Title }</title>\n\t\t\t<link rel=\"icon\" href=\"/assets/images/favicon.ico\" type=\"image/x-icon\"/>\n\t\t\t<meta charset=\"utf-8\"/>\n\t\t\t<meta name=\"viewport\" content=\"width=device-width, initial-scale=1\"/>\n\t\t\t<meta http-equiv=\"X-UA-Compatible\" content=\"IE=edge\"/>\n\t\t\t<meta name=\"description\" content={ site.Metatags.Description }/>\n\t\t\t<meta name=\"keywords\" content={ site.Metatags.Keywords }/>\n\t\t\t<meta name=\"author\" content=\"Francecsco Michele Barranca\"/>\n\t\t\t<meta name=\"robots\" content=\"index, follow\"/>\n\t\t\t<link rel=\"canonical\" href=\"https://example.com\"/>\n\t\t\t<script type=\"application/ld+json\">\n                {\n                    \"@context\": \"http://schema.org\",\n                    \"@type\": \"Organization\",\n                    \"name\": \"GoApp\",\n                    \"url\": \"https://example.com\",\n                    \"logo\": \"https://example.com/assets/images/logo.webp\",\n                    \"contactPoint\": [\n                        {\n                            \"@type\": \"ContactPoint\",\n                            \"telephone\": \"+1\",\n                            \"contactType\": \"\"\n                        }\n                    ]\n                }\n                </script>\n\t\t\t<script type=\"module\" src=\"/assets/dist/index.js\"></script>\n\t\t\t<link rel=\"stylesheet\" href=\"/assets/dist/index.css\"/>\n\t\t</head>\n\t\t<body class=\"h-full w-full flex flex-col justify-stretch items-stretch relative\">\n\t\t\t<div id=\"indicator\" class=\"htmx-indicator w-full h-screen absolute bottom-0 right-0 z-50 flex bg-slate-700 opacity-70 justify-center items-center\"><div class=\"loader\"></div></div>\n\t\t\t@components.Header()\n\t\t\t{ children... }\n\t\t\t@components.Footer(strconv.Itoa(site.Year))\n\t\t</body>\n\t</html>\n}\n"@
}

pub open spec fn client_error_templ_template() -> Seq<char> {
    "package views\n\nimport \"github.com/__username__/go_boilerplate/internal/models\"\nimport \"github.com/__username__/go_boilerplate/views/layouts\"\n\ntempl ClientError(site models.Site, err error) {\n\t@layouts.CoreHTML(site) {\n\t\t<main class=\"flex flex-col w-full justify-center items-center text-center h-[80vh]\">\n\t\t\t<h1 class=\"rounded-sm text-2xl p-2 my-3 bg-red-800 shadow-xl text-white text-center\">404 - Page not found</h1>\n\t\t\t<p class=\" rounded-sm text-2xl p-2 my-3 bg-red-800 shadow-xl text-white w-full text-center tracking-wider\">{ err.Error() }</p>\n\t\t\t<a class=\"rounded p-2 my-5 text-center italic shadow-2xl bg-green-800 text-white w-3/4 text-xl\" href=\"/\">Go back</a>\n\t\t</main>\n\t}\n}\n"@
}

pub open spec fn server_error_templ_template() -> Seq<char> {
    "package views\n\nimport \"github.com/__username__/go_boilerplate/internal/models\"\nimport \"github.com/__username__/go_boilerplate/views/layouts\"\n\ntempl ServerError(site models.Site, err error) {\n\t@layouts.CoreHTML(site) {\n\t\t<main class=\"flex flex-col w-full justify-center items-center text-center h-[80vh]\">\n\t\t\t<h1 class=\"rounded-sm text-2xl p-2 my-3 bg-red-800 shadow-xl text-white text-center\">500 - Server encoutered an error</h1>\n\t\t\t<p class=\" rounded-sm text-2xl p-2 my-3 bg-red-800 shadow-xl text-white w-full text-center tracking-wider\">{ err.Error() }</p>\n\t\t\t<a class=\"rounded p-2 my-5 text-center italic shadow-2xl bg-green-800 text-white w-3/4 text-xl\" href=\"/\">Go back</a>\n\t\t</main>\n\t}\n}\n"@
}

pub open spec fn index_templ_template() -> Seq<char> {
    "package views\n\nimport \"github.com/__username__/go_boilerplate/internal/models\"\nimport \"github.com/__username__/go_boilerplate/views/layouts\"\n\ntempl Index(site models.Site) {\n\t@layouts.CoreHTML(site) {\n\t\t<main class=\"flex flex-col w-full justify-center items-center min-h-[100vh]\">\n\t\t\t<h1 class=\"text-2xl text-primary font-bold my-2\">Hello GO+HTMX</h1>\n\t\t</main>\n\t}\n}\n"@
}

/// The shape of the `views` subtree.
pub open spec fn is_views_dir(r: ProjectDir, imp: Seq<char>) -> bool {
    &&& r.dirname@ == "views"@
    &&& files_of(r).len() == 3
    &&& files_of(r)[0].filename@ == "404.templ"@
    &&& files_of(r)[0].content@ == replace_all(client_error_templ_template(), import_token(), imp)
    &&& files_of(r)[1].filename@ == "500.templ"@
    &&& files_of(r)[1].content@ == replace_all(server_error_templ_template(), import_token(), imp)
    &&& files_of(r)[2].filename@ == "index.templ"@
    &&& files_of(r)[2].content@ == replace_all(index_templ_template(), import_token(), imp)
    &&& dirs_of(r).len() == 3
    &&& dirs_of(r)[0].dirname@ == "components"@
    &&& dirs_of(r)[0].dirs is None
    &&& files_of(dirs_of(r)[0]).len() == 2
    &&& files_of(dirs_of(r)[0])[0].filename@ == "header.templ"@
    &&& files_of(dirs_of(r)[0])[0].content@ == header_templ_text()
    &&& files_of(dirs_of(r)[0])[1].filename@ == "footer.templ"@
    &&& files_of(dirs_of(r)[0])[1].content@ == footer_templ_text()
    &&& dirs_of(r)[1].dirname@ == "layouts"@
    &&& dirs_of(r)[1].dirs is None
    &&& files_of(dirs_of(r)[1]).len() == 1
    &&& files_of(dirs_of(r)[1])[0].filename@ == "core.templ"@
    &&& files_of(dirs_of(r)[1])[0].content@ == replace_all(core_templ_template(), import_token(), imp)
    &&& dirs_of(r)[2].dirname@ == "icons"@
    &&& dirs_of(r)[2].dirs is None
    &&& dirs_of(r)[2].files is None
}

/// The `views` subtree: shared components, the core layout, an empty
/// icons directory, and the error and index pages.
pub fn views(import_str: &str) -> (r: ProjectDir)
    ensures
        is_views_dir(r, import_str@),
{
    let header = ProjectFile {
        filename: "header.templ".to_owned(),
        content: "package components\n\ntempl Header() {\n\t<header class=\"flex justify-between items-center bg-std text-center text-primary rounded-b w-full h-24 p-4 sticky top-0 right-0 z-20\">\n\t\t<div class=\"flex items-center p-2 w-[35%]\">\n\t\t\t<img src=\"/assets/images/logo.webp\" alt=\"App Logo\" width=\"85px\" height=\"85px\"/>\n\t\t\t<h1 class=\"ml-8 text-3xl\"><a href=\"/\">Title</a></h1>\n\t\t</div>\n\t\t<nav class=\"md:w-auto\">\n\t\t\t<!-- Burger menu icon for small screens -->\n\t\t\t<div id=\"burgerMenu\" class=\"burger-menu md:hidden cursor-pointer\">\n\t\t\t\t<div id=\"bar1\" class=\"bar w-6 h-1 bg-primary my-1 rounded transition-transform transform rotate-0\"></div>\n\t\t\t\t<div id=\"bar2\" class=\"bar w-6 h-1 bg-primary my-1 rounded transition-transform transform rotate-0\"></div>\n\t\t\t\t<div id=\"bar3\" class=\"bar w-6 h-1 bg-primary my-1 rounded transition-transform transform rotate-0\"></div>\n\t\t\t</div>\n\t\t\t<!-- Navigation links for larger screens -->\n\t\t\t<ul id=\"navLinks\" class=\"nav-links md:flex flex-row space-x-4 hidden\">\n\t\t\t\t<li><a href=\"/#page1\" class=\"text-primary text-xl md:text-2xl\">Page 1</a></li>\n\t\t\t\t<li><a href=\"/#page2\" class=\"text-primary text-xl md:text-2xl\">Page 2</a></li>\n\t\t\t\t<li><a href=\"/#page3\" class=\"text-primary text-xl md:text-2xl\">Page 3</a></li>\n\t\t\t\t<li><a href=\"/#page4\" class=\"text-primary text-xl md:text-2xl\">Page 4</a></li>\n\t\t\t\t<li><a href=\"/#page5\" class=\"text-primary text-xl md:text-2xl\">Page 5</a></li>\n\t\t\t</ul>\n\t\t\t<!-- Navigation links for mobile view -->\n\t\t\t<ul id=\"mobileNavLinks\" class=\"nav-links-mobile md:hidden absolute top-24 left-0 w-full hidden z-30 transition-all ease-in\">\n\t\t\t\t<li class=\"bg-std w-full px-4 py-2\"><a href=\"/#page1\" class=\"text-primary text-center  text-xl md:text-2xl\">Page 1</a></li>\n\t\t\t\t<li class=\"bg-std w-full px-4 py-2\"><a href=\"/#page2\" class=\"text-primary text-center  text-xl md:text-2xl\">Page 2</a></li>\n\t\t\t\t<li class=\"bg-std w-full px-4 py-2\"><a href=\"/#page3\" class=\"text-primary text-center  text-xl md:text-2xl\">Page 3</a></li>\n\t\t\t\t<li class=\"bg-std w-full px-4 py-2\"><a href=\"/#page4\" class=\"text-primary text-center  text-xl md:text-2xl\">Page 4</a></li>\n\t\t\t\t<li class=\"bg-std w-full px-4 py-2\"><a href=\"/#page5\" class=\"text-primary text-center  text-xl md:text-2xl\">Page 5</a></li>\n\t\t\t</ul>\n\t\t</nav>\n\t\t<script>\n\n            var burgerMenu = document.getElementById('burgerMenu');\n            var navLinks = document.getElementById('mobileNavLinks');\n            var bar1 = document.getElementById('bar1');\n            var bar2 = document.getElementById('bar2');\n            var bar3 = document.getElementById('bar3');\n\n            burgerMenu.addEventListener('click', function () {\n                navLinks.classList.toggle('hidden');\n                  if (bar1.classList.contains('rotate-0')) {\n                    bar1.classList.remove('rotate-0');\n                    bar1.classList.add('rotate-45', 'translate-y-2');\n\n                    bar2.classList.remove('rotate-0');\n                    bar2.classList.add('opacity-0');\n\n                    bar3.classList.remove('rotate-0');\n                    bar3.classList.add('-rotate-45', '-translate-y-2');\n                } else {\n                    bar1.classList.remove('rotate-45', 'translate-y-2');\n                    bar1.classList.add('rotate-0');\n\n                    bar2.classList.remove('opacity-0');\n                    bar3.classList.remove('-rotate-45', '-translate-y-2');\n                    bar3.classList.add('rotate-0');\n                }\n            });\n\n        </script>\n\t</header>\n}\n".to_owned(),
    };
    let footer = ProjectFile {
        filename: "footer.templ".to_owned(),
        content: "package components\n\ntempl Footer(year string) {\n\t<footer class=\"bg-primary text-std p-3 text-center\">\n\t\t<p class=\"text-sm\">\n\t\t\t&copy; { year } GoApp. All rights reserved.\n\t\t</p>\n\t</footer>\n}\n".to_owned(),
    };
    let components = ProjectDir {
        dirname: "components".to_owned(),
        files: Some(vec![header, footer]),
        dirs: None,
    };
    let core = ProjectFile {
        filename: "core.templ".to_owned(),
        content: splice("package layouts\n\nimport \"github.com/__username__/go_boilerplate/internal/models\"\nimport \"github.com/__username__/go_boilerplate/views/components\"\nimport \"strconv\"\n\ntempl CoreHTML(site models.Site) {\n\t<!DOCTYPE html>\n\t<html lang=\"en\">\n\t\t<head>\n\t\t\t<meta name=\"viewport\" content=\"width=device-width, initial-scale=1\"/>\n\t\t\t<title>{ site.AppName } | { site.Title }</title>\n\t\t\t<link rel=\"icon\" href=\"/assets/images/favicon.ico\" type=\"image/x-icon\"/>\n\t\t\t<meta charset=\"utf-8\"/>\n\t\t\t<meta name=\"viewport\" content=\"width=device-width, initial-scale=1\"/>\n\t\t\t<meta http-equiv=\"X-UA-Compatible\" content=\"IE=edge\"/>\n\t\t\t<meta name=\"description\" content={ site.Metatags.Description }/>\n\t\t\t<meta name=\"keywords\" content={ site.Metatags.Keywords }/>\n\t\t\t<meta name=\"author\" content=\"Francecsco Michele Barranca\"/>\n\t\t\t<meta name=\"robots\" content=\"index, follow\"/>\n\t\t\t<link rel=\"canonical\" href=\"https://example.com\"/>\n\t\t\t<script type=\"application/ld+json\">\n                {\n                    \"@context\": \"http://schema.org\",\n                    \"@type\": \"Organization\",\n                    \"name\": \"GoApp\",\n                    \"url\": \"https://example.com\",\n                    \"logo\": \"https://example.com/assets/images/logo.webp\",\n                    \"contactPoint\": [\n                        {\n                            \"@type\": \"ContactPoint\",\n                            \"telephone\": \"+1\",\n                            \"contactType\": \"\"\n                        }\n                    ]\n                }\n                </script>\n\t\t\t<script type=\"module\" src=\"/assets/dist/index.js\"></script>\n\t\t\t<link rel=\"stylesheet\" href=\"/assets/dist/index.css\"/>\n\t\t</head>\n\t\t<body class=\"h-full w-full flex flex-col justify-stretch items-stretch relative\">\n\t\t\t<div id=\"indicator\" class=\"htmx-indicator w-full h-screen absolute bottom-0 right-0 z-50 flex bg-slate-700 opacity-70 justify-center items-center\"><div class=\"loader\"></div></div>\n\t\t\t@components.Header()\n\t\t\t{ children... }\n\t\t\t@components.Footer(strconv.Itoa(site.Year))\n\t\t</body>\n\t</html>\n}\n", "github.com/__username__/go_boilerplate", import_str),
    };
    let layouts = ProjectDir { dirname: "layouts".to_owned(), files: Some(vec![core]), dirs: None };
    let icons = ProjectDir { dirname: "icons".to_owned(), files: None, dirs: None };
    let client_error = ProjectFile {
        filename: "404.templ".to_owned(),
        content: splice("package views\n\nimport \"github.com/__username__/go_boilerplate/internal/models\"\nimport \"github.com/__username__/go_boilerplate/views/layouts\"\n\ntempl ClientError(site models.Site, err error) {\n\t@layouts.CoreHTML(site) {\n\t\t<main class=\"flex flex-col w-full justify-center items-center text-center h-[80vh]\">\n\t\t\t<h1 class=\"rounded-sm text-2xl p-2 my-3 bg-red-800 shadow-xl text-white text-center\">404 - Page not found</h1>\n\t\t\t<p class=\" rounded-sm text-2xl p-2 my-3 bg-red-800 shadow-xl text-white w-full text-center tracking-wider\">{ err.Error() }</p>\n\t\t\t<a class=\"rounded p-2 my-5 text-center italic shadow-2xl bg-green-800 text-white w-3/4 text-xl\" href=\"/\">Go back</a>\n\t\t</main>\n\t}\n}\n", "github.com/__username__/go_boilerplate", import_str),
    };
    let server_error = ProjectFile {
        filename: "500.templ".to_owned(),
        content: splice("package views\n\nimport \"github.com/__username__/go_boilerplate/internal/models\"\nimport \"github.com/__username__/go_boilerplate/views/layouts\"\n\ntempl ServerError(site models.Site, err error) {\n\t@layouts.CoreHTML(site) {\n\t\t<main class=\"flex flex-col w-full justify-center items-center text-center h-[80vh]\">\n\t\t\t<h1 class=\"rounded-sm text-2xl p-2 my-3 bg-red-800 shadow-xl text-white text-center\">500 - Server encoutered an error</h1>\n\t\t\t<p class=\" rounded-sm text-2xl p-2 my-3 bg-red-800 shadow-xl text-white w-full text-center tracking-wider\">{ err.Error() }</p>\n\t\t\t<a class=\"rounded p-2 my-5 text-center italic shadow-2xl bg-green-800 text-white w-3/4 text-xl\" href=\"/\">Go back</a>\n\t\t</main>\n\t}\n}\n", "github.com/__username__/go_boilerplate", import_str),
    };
    let index_page = ProjectFile {
        filename: "index.templ".to_owned(),
        content: splice("package views\n\nimport \"github.com/__username__/go_boilerplate/internal/models\"\nimport \"github.com/__username__/go_boilerplate/views/layouts\"\n\ntempl Index(site models.Site) {\n\t@layouts.CoreHTML(site) {\n\t\t<main class=\"flex flex-col w-full justify-center items-center min-h-[100vh]\">\n\t\t\t<h1 class=\"text-2xl text-primary font-bold my-2\">Hello GO+HTMX</h1>\n\t\t</main>\n\t}\n}\n", "github.com/__username__/go_boilerplate", import_str),
    };
    ProjectDir {
        dirname: "views".to_owned(),
        files: Some(vec![client_error, server_error, index_page]),
        dirs: Some(vec![components, layouts, icons]),
    }
}

// ---------------------------------------------------------------------------
// The `client` subtree: the front-end toolchain and sources
// ---------------------------------------------------------------------------

pub open spec fn style_css_text() -> Seq<char> {
    "@tailwind base;\n@tailwind components;\n@tailwind utilities;\n\n/* @font-face {\n  font-family: \"JosefineSans\";\n  src: url(\"../fonts/JosefinSansRegular-x3LYV.ttf\");\n  font-display: swap;\n} */\n\n@layer base {\n  :root {\n    --color-std: 216 201 155;\n    --color-primary: 39 62 71;\n    --color-accent: 174 246 199;\n    --color-success: 86 229 46;\n    --color-error: 138 18 18;\n  }\n}\n\n@layer {\n  #logout {\n    @apply w-full !bg-red-500 p-2 tracking-widest !border-red-500 !border-2 shadow-md !font-bold;\n  }\n}\n\nhtml {\n  scroll-behavior: smooth;\n  /* font-family: \"JosefineSans\", \"Segoe UI\", Tahoma, Geneva, Verdana, sans-serif; */\n  font-family: \"Segoe UI\", Tahoma, Geneva, Verdana, sans-serif;\n}"@
}

pub open spec fn ucounter_ts_text() -> Seq<char> {
    "import { LitElement, html, css } from \"lit\";\nimport { property } from \"lit/decorators.js\";\n\nexport class UCounter extends LitElement {\n  @property({ type: String })\n  idd: string = \"\";\n\n  @property({ type: Number })\n  min: number = 0;\n\n  @property({ type: Number })\n  value: number = 0;\n\n  static styles = css`\n    div.flex {\n      display: flex;\n      align-items: center;\n      justify-content: space-evenly;\n      width: 100%;\n    }\n\n    button {\n      border-width: 4px;\n      width: 3rem;\n      height: 3rem;\n      --tw-border-opacity: 1;\n      border-color: rgb(var(--color-primary) / var(--tw-border-opacity));\n      border-style: solid;\n      border-radius: 9999px;\n      text-align: center;\n      --tw-text-opacity: 1;\n      color: rgb(var(--color-primary) / var(--tw-text-opacity));\n      font-weight: 700;\n      font-size: 1.875rem;\n      line-height: 2.25rem;\n    }\n  `;\n\n  private _increase() {\n    this.value = +this.value + 1;\n  }\n\n  private _decrease() {\n    if (+this.value > +this.min) {\n      this.value = +this.value - 1;\n    }\n  }\n\n  protected render() {\n    return html`\n      <div class=\"flex\">\n        <input\n          id=\"${\"qty\" + this.idd}\"\n          min=\"${this.min.toString()}\"\n          value=\"${this.value.toString()}\"\n          type=\"hidden\"\n        />\n        <button id=\"${\"dec\" + this.idd}\" @click=\"${this._decrease}\">-</button>\n        <span class=\"text-xl md:text-3xl font-bold p-2 text-center\"\n          >${this.value}</span\n        >\n        <button id=\"${\"inc\" + this.idd}\" @click=\"${this._increase}\">+</button>\n      </div>\n    `;\n  }\n}\n"@
}

pub open spec fn index_ts_text() -> Seq<char> {
    "import \"./css/style.css\";\n\nimport htmx from \"htmx.org\";\n\ndeclare global {\n  interface Window {\n    htmx: typeof htmx;\n  }\n}\n\nwindow.htmx = htmx;"@
}

pub open spec fn package_json_text() -> Seq<char> {
    "{\n  \"name\": \"client\",\n  \"version\": \"1.0.0\",\n  \"description\": \"\",\n  \"main\": \"index.js\",\n  \"scripts\": {\n    \"dev\": \"vite\",\n    \"build:watch\": \"vite build --watch\",\n    \"build\": \"vite build\",\n    \"lint\": \"eslint . --ext .ts\",\n    \"lint:fix\": \"eslint . --ext .ts --fix\",\n    \"prettier\": \"prettier --write src/\"\n  },\n  \"author\": \"\",\n  \"license\": \"ISC\",\n  \"dependencies\": {\n    \"htmx.org\": \"^1.9.10\",\n    \"lit\": \"^3.1.2\"\n  },\n  \"devDependencies\": {\n    \"autoprefixer\": \"^10.4.16\",\n    \"postcss\": \"^8.4.31\",\n    \"tailwindcss\": \"^3.3.5\",\n    \"typescript\": \"^5.3.2\",\n    \"vite\": \"^5.0.3\"\n  }\n}"@
}

pub open spec fn postcss_cjs_text() -> Seq<char> {
    "module.exports = {\n  plugins: {\n    tailwindcss: {},\n    autoprefixer: {},\n  },\n};"@
}

pub open spec fn tailwind_cjs_text() -> Seq<char> {
    "/** @type {import('tailwindcss').Config} */\nmodule.exports = {\n  content: [\n    \"./src/**/*.js\",\n    \"../views/*.html\",\n    \"../views/*.templ\",\n    \"../views/components/*.templ\",\n    \"../views/icons/*.templ\",\n    \"../views/layouts/*.templ\",\n  ],\n  theme: {\n    extend: {\n      colors: {\n        std: \"rgb(var(--color-std) / <alpha-value>)\",\n        primary: \"rgb(var(--color-primary) / <alpha-value>)\",\n        success: \"rgb(var(--color-success) / <alpha-value>)\",\n        accent: \"rgb(var(--color-accent) / <alpha-value>)\",\n        error: \"rgb(var(--color-error) / <alpha-value>)\",\n        transparent: \"transparent\",\n        current: \"currentColor\",\n      },\n    },\n  },\n  plugins: [],\n};"@
}

pub open spec fn tsconfig_json_text() -> Seq<char> {
    "{\n  \"compilerOptions\": {\n    \"rootDir\": \"src\",\n    \"outDir\": \"dist\",\n    \"strict\": true,\n    \"lib\": [\"ES6\", \"DOM\"],\n    \"moduleResolution\": \"node\",\n    \"module\": \"ES2015\",\n    \"target\": \"ES6\",\n    \"sourceMap\": true,\n    \"esModuleInterop\": true,\n    \"allowJs\": true,\n    \"checkJs\": false,\n    \"experimentalDecorators\": true,\n    \"resolveJsonModule\": true\n  },\n  \"include\": [\"src/**/*.ts\"]\n}"@
}

pub open spec fn vite_cjs_text() -> Seq<char> {
    "// vite.config.js\n/** @type {import('vite').UserConfig} */\nexport default {\n  base: \"/assets/dist\",\n  build: {\n    outDir: \"../static/dist\",\n    rollupOptions: {\n      input: \"src/index.ts\",\n      output: {\n        entryFileNames: \"index.js\",\n        assetFileNames: \"[name].[ext]\",\n      },\n    },\n  },\n  plugins: [],\n};"@
}

/// The shape of the `client` subtree. Its name makes the planner insert
/// the package-manager install step right after its own files.
pub open spec fn is_client_dir(r: ProjectDir) -> bool {
    &&& r.dirname@ == "client"@
    &&& files_of(r).len() == 5
    &&& files_of(r)[0].filename@ == "package.json"@
    &&& files_of(r)[0].content@ == package_json_text()
    &&& files_of(r)[1].filename@ == "postcss.config.cjs"@
    &&& files_of(r)[1].content@ == postcss_cjs_text()
    &&& files_of(r)[2].filename@ == "tailwind.config.cjs"@
    &&& files_of(r)[2].content@ == tailwind_cjs_text()
    &&& files_of(r)[3].filename@ == "tsconfig.json"@
    &&& files_of(r)[3].content@ == tsconfig_json_text()
    &&& files_of(r)[4].filename@ == "vite.config.cjs"@
    &&& files_of(r)[4].content@ == vite_cjs_text()
    &&& dirs_of(r).len() == 1
    &&& dirs_of(r)[0].dirname@ == "src"@
    &&& files_of(dirs_of(r)[0]).len() == 1
    &&& files_of(dirs_of(r)[0])[0].filename@ == "index.ts"@
    &&& files_of(dirs_of(r)[0])[0].content@ == index_ts_text()
    &&& dirs_of(dirs_of(r)[0]).len() == 3
    &&& dirs_of(dirs_of(r)[0])[0].dirname@ == "css"@
    &&& files_of(dirs_of(dirs_of(r)[0])[0]).len() == 1
    &&& files_of(dirs_of(dirs_of(r)[0])[0])[0].filename@ == "style.css"@
    &&& files_of(dirs_of(dirs_of(r)[0])[0])[0].content@ == style_css_text()
    &&& dirs_of(dirs_of(r)[0])[0].dirs is None
    &&& dirs_of(dirs_of(r)[0])[1].dirname@ == "fonts"@
    &&& dirs_of(dirs_of(r)[0])[1].files is None
    &&& dirs_of(dirs_of(r)[0])[1].dirs is None
    &&& dirs_of(dirs_of(r)[0])[2].dirname@ == "components"@
    &&& files_of(dirs_of(dirs_of(r)[0])[2]).len() == 1
    &&& files_of(dirs_of(dirs_of(r)[0])[2])[0].filename@ == "ucounter.ts"@
    &&& files_of(dirs_of(dirs_of(r)[0])[2])[0].content@ == ucounter_ts_text()
    &&& dirs_of(dirs_of(r)[0])[2].dirs is None
}

/// The `client` subtree: package manifests, build-tool configuration and
/// the front-end sources.
pub fn client_dir() -> (r: ProjectDir)
    ensures
        is_client_dir(r),
{
    let style = ProjectFile {
        filename: "style.css".to_owned(),
        content: "@tailwind base;\n@tailwind components;\n@tailwind utilities;\n\n/* @font-face {\n  font-family: \"JosefineSans\";\n  src: url(\"../fonts/JosefinSansRegular-x3LYV.ttf\");\n  font-display: swap;\n} */\n\n@layer base {\n  :root {\n    --color-std: 216 201 155;\n    --color-primary: 39 62 71;\n    --color-accent: 174 246 199;\n    --color-success: 86 229 46;\n    --color-error: 138 18 18;\n  }\n}\n\n@layer {\n  #logout {\n    @apply w-full !bg-red-500 p-2 tracking-widest !border-red-500 !border-2 shadow-md !font-bold;\n  }\n}\n\nhtml {\n  scroll-behavior: smooth;\n  /* font-family: \"JosefineSans\", \"Segoe UI\", Tahoma, Geneva, Verdana, sans-serif; */\n  font-family: \"Segoe UI\", Tahoma, Geneva, Verdana, sans-serif;\n}".to_owned(),
    };
    let counter = ProjectFile {
        filename: "ucounter.ts".to_owned(),
        content: "import { LitElement, html, css } from \"lit\";\nimport { property } from \"lit/decorators.js\";\n\nexport class UCounter extends LitElement {\n  @property({ type: String })\n  idd: string = \"\";\n\n  @property({ type: Number })\n  min: number = 0;\n\n  @property({ type: Number })\n  value: number = 0;\n\n  static styles = css`\n    div.flex {\n      display: flex;\n      align-items: center;\n      justify-content: space-evenly;\n      width: 100%;\n    }\n\n    button {\n      border-width: 4px;\n      width: 3rem;\n      height: 3rem;\n      --tw-border-opacity: 1;\n      border-color: rgb(var(--color-primary) / var(--tw-border-opacity));\n      border-style: solid;\n      border-radius: 9999px;\n      text-align: center;\n      --tw-text-opacity: 1;\n      color: rgb(var(--color-primary) / var(--tw-text-opacity));\n      font-weight: 700;\n      font-size: 1.875rem;\n      line-height: 2.25rem;\n    }\n  `;\n\n  private _increase() {\n    this.value = +this.value + 1;\n  }\n\n  private _decrease() {\n    if (+this.value > +this.min) {\n      this.value = +this.value - 1;\n    }\n  }\n\n  protected render() {\n    return html`\n      <div class=\"flex\">\n        <input\n          id=\"${\"qty\" + this.idd}\"\n          min=\"${this.min.toString()}\"\n          value=\"${this.value.toString()}\"\n          type=\"hidden\"\n        />\n        <button id=\"${\"dec\" + this.idd}\" @click=\"${this._decrease}\">-</button>\n        <span class=\"text-xl md:text-3xl font-bold p-2 text-center\"\n          >${this.value}</span\n        >\n        <button id=\"${\"inc\" + this.idd}\" @click=\"${this._increase}\">+</button>\n      </div>\n    `;\n  }\n}\n".to_owned(),
    };
    let css = ProjectDir { dirname: "css".to_owned(), files: Some(vec![style]), dirs: None };
    let components = ProjectDir {
        dirname: "components".to_owned(),
        files: Some(vec![counter]),
        dirs: None,
    };
    let fonts = ProjectDir { dirname: "fonts".to_owned(), files: None, dirs: None };
    let indexts = ProjectFile {
        filename: "index.ts".to_owned(),
        content: "import \"./css/style.css\";\n\nimport htmx from \"htmx.org\";\n\ndeclare global {\n  interface Window {\n    htmx: typeof htmx;\n  }\n}\n\nwindow.htmx = htmx;".to_owned(),
    };
    let src = ProjectDir {
        dirname: "src".to_owned(),
        files: Some(vec![indexts]),
        dirs: Some(vec![css, fonts, components]),
    };
    let package = ProjectFile {
        filename: "package.json".to_owned(),
        content: "{\n  \"name\": \"client\",\n  \"version\": \"1.0.0\",\n  \"description\": \"\",\n  \"main\": \"index.js\",\n  \"scripts\": {\n    \"dev\": \"vite\",\n    \"build:watch\": \"vite build --watch\",\n    \"build\": \"vite build\",\n    \"lint\": \"eslint . --ext .ts\",\n    \"lint:fix\": \"eslint . --ext .ts --fix\",\n    \"prettier\": \"prettier --write src/\"\n  },\n  \"author\": \"\",\n  \"license\": \"ISC\",\n  \"dependencies\": {\n    \"htmx.org\": \"^1.9.10\",\n    \"lit\": \"^3.1.2\"\n  },\n  \"devDependencies\": {\n    \"autoprefixer\": \"^10.4.16\",\n    \"postcss\": \"^8.4.31\",\n    \"tailwindcss\": \"^3.3.5\",\n    \"typescript\": \"^5.3.2\",\n    \"vite\": \"^5.0.3\"\n  }\n}".to_owned(),
    };
    let postcss = ProjectFile {
        filename: "postcss.config.cjs".to_owned(),
        content: "module.exports = {\n  plugins: {\n    tailwindcss: {},\n    autoprefixer: {},\n  },\n};".to_owned(),
    };
    let tailwind = ProjectFile {
        filename: "tailwind.config.cjs".to_owned(),
        content: "/** @type {import('tailwindcss').Config} */\nmodule.exports = {\n  content: [\n    \"./src/**/*.js\",\n    \"../views/*.html\",\n    \"../views/*.templ\",\n    \"../views/components/*.templ\",\n    \"../views/icons/*.templ\",\n    \"../views/layouts/*.templ\",\n  ],\n  theme: {\n    extend: {\n      colors: {\n        std: \"rgb(var(--color-std) / <alpha-value>)\",\n        primary: \"rgb(var(--color-primary) / <alpha-value>)\",\n        success: \"rgb(var(--color-success) / <alpha-value>)\",\n        accent: \"rgb(var(--color-accent) / <alpha-value>)\",\n        error: \"rgb(var(--color-error) / <alpha-value>)\",\n        transparent: \"transparent\",\n        current: \"currentColor\",\n      },\n    },\n  },\n  plugins: [],\n};".to_owned(),
    };
    let tsconfig = ProjectFile {
        filename: "tsconfig.json".to_owned(),
        content: "{\n  \"compilerOptions\": {\n    \"rootDir\": \"src\",\n    \"outDir\": \"dist\",\n    \"strict\": true,\n    \"lib\": [\"ES6\", \"DOM\"],\n    \"moduleResolution\": \"node\",\n    \"module\": \"ES2015\",\n    \"target\": \"ES6\",\n    \"sourceMap\": true,\n    \"esModuleInterop\": true,\n    \"allowJs\": true,\n    \"checkJs\": false,\n    \"experimentalDecorators\": true,\n    \"resolveJsonModule\": true\n  },\n  \"include\": [\"src/**/*.ts\"]\n}".to_owned(),
    };
    let vite = ProjectFile {
        filename: "vite.config.cjs".to_owned(),
        content: "// vite.config.js\n/** @type {import('vite').UserConfig} */\nexport default {\n  base: \"/assets/dist\",\n  build: {\n    outDir: \"../static/dist\",\n    rollupOptions: {\n      input: \"src/index.ts\",\n      output: {\n        entryFileNames: \"index.js\",\n        assetFileNames: \"[name].[ext]\",\n      },\n    },\n  },\n  plugins: [],\n};".to_owned(),
    };
    ProjectDir {
        dirname: "client".to_owned(),
        files: Some(vec![package, postcss, tailwind, tsconfig, vite]),
        dirs: Some(vec![src]),
    }
}

// ---------------------------------------------------------------------------
// Remaining root-level files and the whole corpus
// ---------------------------------------------------------------------------

pub open spec fn air_toml_text() -> Seq<char> {
    "root = \".\"\ntestdata_dir = \"testdata\"\ntmp_dir = \"tmp\"\n\n[build]\n  args_bin = []\n  bin = \"./tmp/main\"\n  cmd = \"go build -o ./tmp/main ./cmd/server/*.go\"\n  delay = 1000\n  exclude_dir = [\"assets\", \"tmp\", \"vendor\", \"testdata\", \"client\", \"data\"]\n  exclude_file = []\n  exclude_regex = [\"_test.go\"]\n  exclude_unchanged = false\n  follow_symlink = false\n  full_bin = \"\"\n  include_dir = []\n  include_ext = [\"go\", \"tpl\", \"tmpl\", \"html\"]\n  include_file = []\n  kill_delay = \"0s\"\n  log = \"build-errors.log\"\n  poll = false\n  poll_interval = 0\n  post_cmd = []\n  pre_cmd = []\n  rerun = false\n  rerun_delay = 500\n  send_interrupt = false\n  stop_on_error = false\n\n[color]\n  app = \"\"\n  build = \"yellow\"\n  main = \"magenta\"\n  runner = \"green\"\n  watcher = \"cyan\"\n\n[log]\n  main_only = false\n  time = false\n\n[misc]\n  clean_on_exit = false\n\n[screen]\n  clear_on_rebuild = false\n  keep_scroll = true\n"@
}

/// Configuration for the live-reload build watcher.
pub fn air_toml() -> (r: ProjectFile)
    ensures
        r.filename@ == "_.air.toml"@,
        r.content@ == air_toml_text(),
{
    ProjectFile {
        filename: "_.air.toml".to_owned(),
        content: "root = \".\"\ntestdata_dir = \"testdata\"\ntmp_dir = \"tmp\"\n\n[build]\n  args_bin = []\n  bin = \"./tmp/main\"\n  cmd = \"go build -o ./tmp/main ./cmd/server/*.go\"\n  delay = 1000\n  exclude_dir = [\"assets\", \"tmp\", \"vendor\", \"testdata\", \"client\", \"data\"]\n  exclude_file = []\n  exclude_regex = [\"_test.go\"]\n  exclude_unchanged = false\n  follow_symlink = false\n  full_bin = \"\"\n  include_dir = []\n  include_ext = [\"go\", \"tpl\", \"tmpl\", \"html\"]\n  include_file = []\n  kill_delay = \"0s\"\n  log = \"build-errors.log\"\n  poll = false\n  poll_interval = 0\n  post_cmd = []\n  pre_cmd = []\n  rerun = false\n  rerun_delay = 500\n  send_interrupt = false\n  stop_on_error = false\n\n[color]\n  app = \"\"\n  build = \"yellow\"\n  main = \"magenta\"\n  runner = \"green\"\n  watcher = \"cyan\"\n\n[log]\n  main_only = false\n  time = false\n\n[misc]\n  clean_on_exit = false\n\n[screen]\n  clear_on_rebuild = false\n  keep_scroll = true\n".to_owned(),
    }
}

pub open spec fn dockercompose_template() -> Seq<char> {
    "version: \"3.7\"\n\nservices:\n  go_boilerplate:\n    container_name: go_boilerplate\n    image: go_boilerplate\n    labels:\n      - traefik.http.routers.go_boilerplate.rule=Host(`go_boilerplate.example.com`)\n      - traefik.http.routers.go_boilerplate.entrypoints=web,websecure\n      - traefik.http.routers.go_boilerplate.service=go_boilerplate\n      - traefik.http.services.go_boilerplate.loadbalancer.server.port=__port__\n      - traefik.http.routers.go_boilerplate.tls=true\n      - traefik.http.routers.go_boilerplate.tls.certresolver=le\n      - traefik.port=80\n    networks:\n      - go_boilerplatenet\n      - proxy\n    ports:\n      - __port__:__port__\n\nnetworks:\n  proxy:\n    external: true\n  go_boilerplatenet:\n    driver: bridge\n    external: false\n\nvolumes:\n  go_boilerplatepgdata:\n    driver: local\n  go_boilerplatepgconf:\n    driver: local\n  go_boilerplatepglog:\n    driver: local"@
}

/// The compose file, with the project name and port spliced in through
/// the same placeholder tokens the resolver knows.
pub fn dockercompose(project: &str, port: u32) -> (r: ProjectFile)
    ensures
        r.filename@ == "docker-compose.yml"@,
        r.content@ == replace_all(
            replace_all(dockercompose_template(), token_project(), project@),
            token_port(),
            dec_digits(port as int),
        ),
{
    let digits = chars_to_string(&crate::chars::u32_to_chars(port));
    let s1 = splice("version: \"3.7\"\n\nservices:\n  go_boilerplate:\n    container_name: go_boilerplate\n    image: go_boilerplate\n    labels:\n      - traefik.http.routers.go_boilerplate.rule=Host(`go_boilerplate.example.com`)\n      - traefik.http.routers.go_boilerplate.entrypoints=web,websecure\n      - traefik.http.routers.go_boilerplate.service=go_boilerplate\n      - traefik.http.services.go_boilerplate.loadbalancer.server.port=__port__\n      - traefik.http.routers.go_boilerplate.tls=true\n      - traefik.http.routers.go_boilerplate.tls.certresolver=le\n      - traefik.port=80\n    networks:\n      - go_boilerplatenet\n      - proxy\n    ports:\n      - __port__:__port__\n\nnetworks:\n  proxy:\n    external: true\n  go_boilerplatenet:\n    driver: bridge\n    external: false\n\nvolumes:\n  go_boilerplatepgdata:\n    driver: local\n  go_boilerplatepgconf:\n    driver: local\n  go_boilerplatepglog:\n    driver: local", "go_boilerplate", project);
    let s2 = splice(s1.as_str(), "__port__", digits.as_str());
    ProjectFile { filename: "docker-compose.yml".to_owned(), content: s2 }
}

pub open spec fn dockerfile_template() -> Seq<char> {
    "FROM golang:1.21.5-alpine3.18 AS build\n\nRUN apk --no-cache add gcc g++ make git\n\nWORKDIR /go/src/app\n\nCOPY . .\n\nRUN go mod tidy\n\nRUN mv .prod.env .env\n\nRUN GOOS=linux go build -ldflags=\"-s -w\" -o ./bin/go_boilerplate ./cmd/server/*.go\n\nFROM alpine:3.18\n\nRUN apk update && apk upgrade && apk --no-cache add ca-certificates\n\nWORKDIR /go/bin\n\nCOPY --from=build /go/src/app/bin /go/bin\nCOPY --from=build /go/src/app/.env /go/bin/\nCOPY --from=build /go/src/app/data /go/bin/data\nCOPY --from=build /go/src/app/static /go/bin/static\n\nEXPOSE __port__\n\nENTRYPOINT /go/bin/go_boilerplate --port __port__"@
}

/// The container build file, parameterized the same way.
pub fn dockerfile(project: &str, port: u32) -> (r: ProjectFile)
    ensures
        r.filename@ == "Dockerfile"@,
        r.content@ == replace_all(
            replace_all(dockerfile_template(), token_project(), project@),
            token_port(),
            dec_digits(port as int),
        ),
{
    let digits = chars_to_string(&crate::chars::u32_to_chars(port));
    let s1 = splice("FROM golang:1.21.5-alpine3.18 AS build\n\nRUN apk --no-cache add gcc g++ make git\n\nWORKDIR /go/src/app\n\nCOPY . .\n\nRUN go mod tidy\n\nRUN mv .prod.env .env\n\nRUN GOOS=linux go build -ldflags=\"-s -w\" -o ./bin/go_boilerplate ./cmd/server/*.go\n\nFROM alpine:3.18\n\nRUN apk update && apk upgrade && apk --no-cache add ca-certificates\n\nWORKDIR /go/bin\n\nCOPY --from=build /go/src/app/bin /go/bin\nCOPY --from=build /go/src/app/.env /go/bin/\nCOPY --from=build /go/src/app/data /go/bin/data\nCOPY --from=build /go/src/app/static /go/bin/static\n\nEXPOSE __port__\n\nENTRYPOINT /go/bin/go_boilerplate --port __port__", "go_boilerplate", project);
    let s2 = splice(s1.as_str(), "__port__", digits.as_str());
    ProjectFile { filename: "Dockerfile".to_owned(), content: s2 }
}

/// The shape of the whole corpus for one project.
pub open spec fn is_root_dir(r: ProjectDir, project: Seq<char>, port: int, imp: Seq<char>) -> bool {
    &&& r.dirname@ == project
    &&& files_of(r).len() == 8
    &&& files_of(r)[0].filename@ == "_.air.toml"@
    &&& files_of(r)[0].content@ == air_toml_text()
    &&& files_of(r)[1].filename@ == "_.dockerignore"@
    &&& files_of(r)[1].content@ == dockerignore_text()
    &&& files_of(r)[2].filename@ == "_.env"@
    &&& files_of(r)[2].content@ == "PORT=\""@ + dec_digits(port) + "\""@
    &&& files_of(r)[3].filename@ == "_.prod.env"@
    &&& files_of(r)[3].content@ == "PORT=\""@ + dec_digits(port) + "\""@
    &&& files_of(r)[4].filename@ == "_.gitignore"@
    &&& files_of(r)[4].content@ == gitignore_text()
    &&& files_of(r)[5].filename@ == "docker-compose.yml"@
    &&& files_of(r)[5].content@ == replace_all(
        replace_all(dockercompose_template(), token_project(), project),
        token_port(),
        dec_digits(port),
    )
    &&& files_of(r)[6].filename@ == "Dockerfile"@
    &&& files_of(r)[6].content@ == replace_all(
        replace_all(dockerfile_template(), token_project(), project),
        token_port(),
        dec_digits(port),
    )
    &&& files_of(r)[7].filename@ == "README.md"@
    &&& files_of(r)[7].content@ == Seq::<char>::empty()
    &&& dirs_of(r).len() == 7
    &&& dirs_of(r)[0].dirname@ == "assets"@
    &&& dirs_of(r)[0].files is None
    &&& dirs_of(r)[0].dirs is None
    &&& dirs_of(r)[1].dirname@ == "static"@
    &&& dirs_of(r)[1].files is None
    &&& dirs_of(r)[1].dirs is None
    &&& dirs_of(r)[2].dirname@ == "tmp"@
    &&& dirs_of(r)[2].files is None
    &&& dirs_of(r)[2].dirs is None
    &&& is_client_dir(dirs_of(r)[3])
    &&& is_cmd_dir(dirs_of(r)[4], imp)
    &&& is_internal_dir(dirs_of(r)[5], imp)
    &&& is_views_dir(dirs_of(r)[6], imp)
}

/// Builds the whole template corpus for one scaffold run: the root
/// directory named after the project, its configuration files, and the
/// asset, client, command, internal and view subtrees.
pub fn generate_project_structure(project: &str, port: u32, import_str: &str) -> (r: ProjectDir)
    ensures
        is_root_dir(r, project@, port as int, import_str@),
{
    ProjectDir {
        dirname: project.to_owned(),
        files: Some(vec![
            air_toml(),
            dockerignore(),
            dotenvf(port),
            prodenv(port),
            gitignore(),
            dockercompose(project, port),
            dockerfile(project, port),
            readme(),
        ]),
        dirs: Some(vec![
            ProjectDir { dirname: "assets".to_owned(), files: None, dirs: None },
            ProjectDir { dirname: "static".to_owned(), files: None, dirs: None },
            ProjectDir { dirname: "tmp".to_owned(), files: None, dirs: None },
            client_dir(),
            cmd_dir(import_str),
            internal(import_str),
            views(import_str),
        ]),
    }
}

} // verus!
