//! The command-line surface: the options one scaffold run is configured
//! with, a small verified parser for an argument list, and the decimal
//! port parser with its fallback default.

use vstd::prelude::*;

use crate::chars::{eq_chars, str_to_chars, chars_to_string};

verus! {

/// The parsed command line: an optional positional project name, an
/// optional namespace identifier, the port as given (a string, parsed
/// later), and the three feature flags.
pub struct Gospin {
    pub project: Option<String>,
    pub ghu: Option<String>,
    pub port: String,
    pub db: bool,
    pub ws: bool,
    pub secrets: bool,
}

/// The mathematical model of a parsed command line.
#[verifier::ext_equal]
pub struct GospinModel {
    pub project: Option<Seq<char>>,
    pub ghu: Option<Seq<char>>,
    pub port: Seq<char>,
    pub db: bool,
    pub ws: bool,
    pub secrets: bool,
}

impl View for Gospin {
    type V = GospinModel;

    open spec fn view(&self) -> GospinModel {
        GospinModel {
            project: match self.project {
                Some(p) => Some(p@),
                None => None,
            },
            ghu: match self.ghu {
                Some(u) => Some(u@),
                None => None,
            },
            port: self.port@,
            db: self.db,
            ws: self.ws,
            secrets: self.secrets,
        }
    }
}

/// The defaults: no project, no namespace, port `8080`, every flag off.
pub open spec fn default_model() -> GospinModel {
    GospinModel {
        project: None,
        ghu: None,
        port: "8080"@,
        db: false,
        ws: false,
        secrets: false,
    }
}

/// One scan over the arguments: a value option takes the next argument,
/// a switch sets its flag, an unrecognized option is ignored, and the
/// first bare word becomes the project name.
pub open spec fn parse_args(args: Seq<Seq<char>>, st: GospinModel) -> GospinModel
    decreases args.len(),
{
    if args.len() == 0 {
        st
    } else {
        let a = args[0];
        if (a == "--port"@ || a == "-p"@) && args.len() >= 2 {
            parse_args(args.skip(2), GospinModel { port: args[1], ..st })
        } else if (a == "--username"@ || a == "-u"@) && args.len() >= 2 {
            parse_args(args.skip(2), GospinModel { ghu: Some(args[1]), ..st })
        } else if a == "--database"@ || a == "-d"@ {
            parse_args(args.skip(1), GospinModel { db: true, ..st })
        } else if a == "--websockets"@ || a == "-w"@ {
            parse_args(args.skip(1), GospinModel { ws: true, ..st })
        } else if a == "--secrets"@ || a == "-s"@ {
            parse_args(args.skip(1), GospinModel { secrets: true, ..st })
        } else if a.len() > 0 && a[0] == '-' {
            parse_args(args.skip(1), st)
        } else if st.project is None {
            parse_args(args.skip(1), GospinModel { project: Some(a), ..st })
        } else {
            parse_args(args.skip(1), st)
        }
    }
}

/// What parsing a full argument list (program name first) yields.
pub open spec fn gospin_of(args: Seq<Seq<char>>) -> GospinModel {
    if args.len() == 0 {
        default_model()
    } else {
        parse_args(args.skip(1), default_model())
    }
}

impl Gospin {
    /// Parses a full argument list, program name included.
    pub fn parse_from(args: &Vec<String>) -> (r: Gospin)
        ensures
            r@ == gospin_of(args.deep_view()),
    {
        let opt_port_l = str_to_chars("--port");
        let opt_port_s = str_to_chars("-p");
        let opt_user_l = str_to_chars("--username");
        let opt_user_s = str_to_chars("-u");
        let opt_db_l = str_to_chars("--database");
        let opt_db_s = str_to_chars("-d");
        let opt_ws_l = str_to_chars("--websockets");
        let opt_ws_s = str_to_chars("-w");
        let opt_sec_l = str_to_chars("--secrets");
        let opt_sec_s = str_to_chars("-s");
        let mut project: Option<String> = None;
        let mut ghu: Option<String> = None;
        let mut port: String = "8080".to_owned();
        let mut db: bool = false;
        let mut ws: bool = false;
        let mut secrets: bool = false;
        let ghost dv = args.deep_view();
        let mut i: usize = 1;
        if args.len() == 0 {
            return Gospin { project, ghu, port, db, ws, secrets };
        }
        proof {
            assert(Gospin { project, ghu, port, db, ws, secrets }@ =~= default_model());
        }
        while i < args.len()
            invariant
                1 <= i <= args@.len(),
                dv == args.deep_view(),
                dv.len() == args@.len(),
                dv.len() >= 1,
                opt_port_l@ == "--port"@,
                opt_port_s@ == "-p"@,
                opt_user_l@ == "--username"@,
                opt_user_s@ == "-u"@,
                opt_db_l@ == "--database"@,
                opt_db_s@ == "-d"@,
                opt_ws_l@ == "--websockets"@,
                opt_ws_s@ == "-w"@,
                opt_sec_l@ == "--secrets"@,
                opt_sec_s@ == "-s"@,
                parse_args(dv.skip(1), default_model()) == parse_args(
                    dv.skip(i as int),
                    Gospin { project, ghu, port, db, ws, secrets }@,
                ),
            decreases args@.len() - i,
        {
            let ghost st = Gospin { project, ghu, port, db, ws, secrets }@;
            proof {
                assert(dv.skip(i as int).len() > 0);
                assert(dv.skip(i as int)[0] == dv[i as int]);
                assert(dv.skip(i as int).skip(1) =~= dv.skip(i + 1));
                if i + 2 <= dv.len() {
                    assert(dv.skip(i as int)[1] == dv[i + 1]);
                    assert(dv.skip(i as int).skip(2) =~= dv.skip(i + 2));
                }
                assert(dv[i as int] == args@[i as int]@);
            }
            let a = str_to_chars(args[i].as_str());
            if (eq_chars(&a, &opt_port_l) || eq_chars(&a, &opt_port_s)) && i + 1 < args.len() {
                port = args[i + 1].clone();
                proof {
                    assert(Gospin { project, ghu, port, db, ws, secrets }@ =~= GospinModel {
                        port: dv[i + 1],
                        ..st
                    });
                }
                i += 2;
            } else if (eq_chars(&a, &opt_user_l) || eq_chars(&a, &opt_user_s)) && i + 1
                < args.len() {
                ghu = Some(args[i + 1].clone());
                proof {
                    assert(Gospin { project, ghu, port, db, ws, secrets }@ =~= GospinModel {
                        ghu: Some(dv[i + 1]),
                        ..st
                    });
                }
                i += 2;
            } else if eq_chars(&a, &opt_db_l) || eq_chars(&a, &opt_db_s) {
                db = true;
                proof {
                    assert(Gospin { project, ghu, port, db, ws, secrets }@ =~= GospinModel {
                        db: true,
                        ..st
                    });
                }
                i += 1;
            } else if eq_chars(&a, &opt_ws_l) || eq_chars(&a, &opt_ws_s) {
                ws = true;
                proof {
                    assert(Gospin { project, ghu, port, db, ws, secrets }@ =~= GospinModel {
                        ws: true,
                        ..st
                    });
                }
                i += 1;
            } else if eq_chars(&a, &opt_sec_l) || eq_chars(&a, &opt_sec_s) {
                secrets = true;
                proof {
                    assert(Gospin { project, ghu, port, db, ws, secrets }@ =~= GospinModel {
                        secrets: true,
                        ..st
                    });
                }
                i += 1;
            } else if a.len() > 0 && a[0] == '-' {
                i += 1;
            } else if project.is_none() {
                project = Some(args[i].clone());
                proof {
                    assert(Gospin { project, ghu, port, db, ws, secrets }@ =~= GospinModel {
                        project: Some(dv[i as int]),
                        ..st
                    });
                }
                i += 1;
            } else {
                i += 1;
            }
        }
        proof {
            assert(dv.skip(dv.len() as int) =~= Seq::<Seq<char>>::empty());
        }
        Gospin { project, ghu, port, db, ws, secrets }
    }
}

// ---------------------------------------------------------------------------
// Port parsing
// ---------------------------------------------------------------------------

/// The numeric value of a digit character.
pub open spec fn digit_val(c: char) -> int {
    c as int - '0' as int
}

/// `c` is a decimal digit.
pub open spec fn is_digit(c: char) -> bool {
    '0' <= c && c <= '9'
}

/// The value of a digit string, most significant digit first.
pub open spec fn digits_val(s: Seq<char>) -> int
    decreases s.len(),
{
    if s.len() == 0 {
        0
    } else {
        digits_val(s.take(s.len() - 1)) * 10 + digit_val(s[s.len() - 1])
    }
}

/// Every character of `s` is a decimal digit.
pub open spec fn all_digits(s: Seq<char>) -> bool {
    forall|k: int| 0 <= k < s.len() ==> is_digit(#[trigger] s[k])
}

/// A port argument with an optional leading `+` sign removed.
pub open spec fn port_body(s: Seq<char>) -> Seq<char> {
    if s.len() > 0 && s[0] == '+' {
        s.skip(1)
    } else {
        s
    }
}

/// What a port argument denotes: its decimal value if it is an optional
/// `+` followed by one or more digits and the value fits in the type,
/// and the default `8080` otherwise.
pub open spec fn port_of(s: Seq<char>) -> u32 {
    if port_body(s).len() > 0 && all_digits(port_body(s)) && digits_val(port_body(s))
        <= u32::MAX {
        digits_val(port_body(s)) as u32
    } else {
        8080
    }
}

proof fn lemma_digits_val_bounds(s: Seq<char>)
    requires
        forall|k: int| 0 <= k < s.len() ==> is_digit(#[trigger] s[k]),
    ensures
        digits_val(s) >= 0,
        s.len() > 0 ==> digits_val(s) >= digits_val(s.take(s.len() - 1)),
    decreases s.len(),
{
    if s.len() == 0 {
    } else {
        let t = s.take(s.len() - 1);
        assert(forall|k: int| 0 <= k < t.len() ==> t[k] == s[k]);
        lemma_digits_val_bounds(t);
        assert(digits_val(t) * 10 >= digits_val(t)) by (nonlinear_arith)
            requires
                digits_val(t) >= 0,
        ;
    }
}

/// A digit prefix already over the bound keeps any longer digit string
/// over the bound.
proof fn lemma_digits_val_monotone(s: Seq<char>, i: int)
    requires
        forall|k: int| 0 <= k < s.len() ==> is_digit(#[trigger] s[k]),
        0 <= i <= s.len(),
    ensures
        digits_val(s) >= digits_val(s.take(i)),
    decreases s.len() - i,
{
    if i == s.len() {
        assert(s.take(i) =~= s);
    } else {
        lemma_digits_val_monotone(s, i + 1);
        let t = s.take(i + 1);
        assert(forall|k: int| 0 <= k < t.len() ==> t[k] == s[k]);
        assert(t.take(t.len() - 1) =~= s.take(i));
        lemma_digits_val_bounds(t);
    }
}

/// Parses a port argument, falling back to the default on anything that
/// is not a plain decimal number within range.
#[verifier::loop_isolation(false)]
pub fn port_value(s: &str) -> (r: u32)
    ensures
        r == port_of(s@),
{
    let v = str_to_chars(s);
    let start: usize = if v.len() > 0 && v[0] == '+' {
        1
    } else {
        0
    };
    let ghost body = port_body(s@);
    proof {
        assert(forall|k: int| 0 <= k < body.len() ==> body[k] == v@[k + start]);
    }
    if v.len() == start {
        return 8080;
    }
    let mut val: u64 = 0;
    let mut k: usize = start;
    while k < v.len()
        invariant
            start <= k <= v@.len(),
            v@.len() > start,
            body.len() == v@.len() - start,
            forall|j: int| 0 <= j < body.len() ==> body[j] == v@[j + start],
            forall|j: int| 0 <= j < k - start ==> is_digit(#[trigger] body[j]),
            val <= u32::MAX,
            val == digits_val(body.take(k - start)),
        decreases v@.len() - k,
    {
        let c = v[k];
        if !(c >= '0' && c <= '9') {
            proof {
                assert(!is_digit(body[k - start]));
                assert(!all_digits(port_body(s@)));
            }
            return 8080;
        }
        let d: u64 = (c as u32 - 48) as u64;
        proof {
            assert(is_digit(body[k - start]));
            assert(d == digit_val(body[k - start]));
            assert(body.take(k - start + 1).take(k - start) =~= body.take(k - start));
            assert(body.take(k - start + 1)[k - start] == body[k - start]);
        }
        val = val * 10 + d;
        if val > 4294967295 {
            proof {
                assert(digits_val(body.take(k - start + 1)) > u32::MAX);
                if all_digits(port_body(s@)) {
                    lemma_digits_val_monotone(body, k + 1 - start);
                }
            }
            return 8080;
        }
        k += 1;
    }
    proof {
        assert(body.take(v@.len() - start) =~= body);
    }
    val as u32
}

} // verus!
