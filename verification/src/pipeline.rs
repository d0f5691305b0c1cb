use vstd::prelude::*;
use crate::evaluate::{alert_fires, evaluate_history, relevant_entries};
use crate::matching::{first_match, match_in_upper};
use crate::model::{AlertEvent, AppType, BackupWindowStatus, Company, CustomerRecord, Suite};
use crate::text::{to_upper, upper_of};

verus! {

/// The mathematical content of one alert: every field as a plain sequence.
pub struct AlertView {
    pub customer: Seq<char>,
    pub app_type: Seq<char>,
    pub windows: Seq<BackupWindowStatus>,
    pub company_name: Seq<char>,
    pub sending_email: Seq<char>,
    pub receiving_email: Seq<char>,
}

/// What one emitted alert stands for.
pub open spec fn alert_view(a: AlertEvent) -> AlertView {
    AlertView {
        customer: a.customer_name@,
        app_type: a.app_type@,
        windows: a.windows@,
        company_name: a.company.name@,
        sending_email: a.company.sending_email@,
        receiving_email: a.company.receiving_email@,
    }
}

/// The views of a sequence of emitted alerts.
pub open spec fn views_of(v: Seq<AlertEvent>) -> Seq<AlertView> {
    v.map_values(|a: AlertEvent| alert_view(a))
}

/// The alerts one application type contributes for a matched company: one
/// when its history fires, none otherwise.
pub open spec fn app_alerts(upper: Seq<char>, app: AppType, c: Company) -> Seq<AlertView> {
    if alert_fires(app.backup_history@) {
        seq![
            AlertView {
                customer: upper,
                app_type: app.app_type@,
                windows: relevant_entries(app.backup_history@),
                company_name: c.name@,
                sending_email: c.sending_email@,
                receiving_email: c.receiving_email@,
            },
        ]
    } else {
        Seq::empty()
    }
}

/// The alerts of a sequence of application types, in source order.
pub open spec fn apps_alerts(upper: Seq<char>, apps: Seq<AppType>, c: Company) -> Seq<AlertView>
    decreases apps.len(),
{
    if apps.len() == 0 {
        Seq::empty()
    } else {
        apps_alerts(upper, apps.drop_last(), c) + app_alerts(upper, apps.last(), c)
    }
}

/// The alerts of a sequence of suites, in source order.
pub open spec fn suites_alerts(upper: Seq<char>, suites: Seq<Suite>, c: Company) -> Seq<
    AlertView,
>
    decreases suites.len(),
{
    if suites.len() == 0 {
        Seq::empty()
    } else {
        suites_alerts(upper, suites.drop_last(), c) + apps_alerts(
            upper,
            suites.last().app_types@,
            c,
        )
    }
}

/// The alerts one customer record contributes under a configured company
/// list: none when no company matches its uppercased name.
pub open spec fn record_alerts(cs: Seq<Company>, r: CustomerRecord) -> Seq<AlertView> {
    let upper = upper_of(r.customer_name@);
    match first_match(cs, upper) {
        None => Seq::empty(),
        Some(i) => suites_alerts(upper, r.suites@, cs[i]),
    }
}

/// The alerts of a whole applications response, record by record.
pub open spec fn records_alerts(cs: Seq<Company>, rs: Seq<CustomerRecord>) -> Seq<AlertView>
    decreases rs.len(),
{
    if rs.len() == 0 {
        Seq::empty()
    } else {
        records_alerts(cs, rs.drop_last()) + record_alerts(cs, rs.last())
    }
}

/// The views of an optional alert.
pub open spec fn opt_alert_views(r: Option<AlertEvent>) -> Seq<AlertView> {
    match r {
        None => Seq::empty(),
        Some(a) => seq![alert_view(a)],
    }
}

/// Evaluates the backup history of one application type for an already
/// matched company and uppercased customer name.
fn evaluate_app_type(upper: &String, app: &AppType, company: &Company) -> (r: Option<AlertEvent>)
    ensures
        opt_alert_views(r) == app_alerts(upper@, *app, *company),
{
    match evaluate_history(&app.backup_history) {
        None => {
            proof {
                assert(opt_alert_views(None::<AlertEvent>) =~= app_alerts(
                    upper@,
                    *app,
                    *company,
                ));
            }
            None
        },
        Some(windows) => {
            let a = AlertEvent {
                customer_name: upper.clone(),
                app_type: app.app_type.clone(),
                windows,
                company: company.clone(),
            };
            proof {
                assert(opt_alert_views(Some(a)) =~= app_alerts(upper@, *app, *company));
            }
            Some(a)
        },
    }
}

/// Evaluates every application type of one suite, appending the alerts it
/// contributes in source order.
fn evaluate_suite(upper: &String, suite: &Suite, company: &Company, out: &mut Vec<AlertEvent>)
    ensures
        views_of(final(out)@) == views_of(old(out)@) + apps_alerts(
            upper@,
            suite.app_types@,
            *company,
        ),
{
    let ghost base = out@;
    let n = suite.app_types.len();
    for k in 0..n
        invariant
            n == suite.app_types@.len(),
            views_of(out@) == views_of(base) + apps_alerts(
                upper@,
                suite.app_types@.take(k as int),
                *company,
            ),
    {
        let r = evaluate_app_type(upper, &suite.app_types[k], company);
        proof {
            assert(suite.app_types@.take(k as int + 1).drop_last() =~= suite.app_types@.take(
                k as int,
            ));
            assert(suite.app_types@.take(k as int + 1).last() == suite.app_types@[k as int]);
        }
        proof {
            assert(apps_alerts(upper@, suite.app_types@.take(k as int + 1), *company)
                == apps_alerts(upper@, suite.app_types@.take(k as int), *company) + app_alerts(
                upper@,
                suite.app_types@[k as int],
                *company,
            ));
        }
        match r {
            Some(a) => {
                proof {
                    assert(app_alerts(upper@, suite.app_types@[k as int], *company) == seq![
                        alert_view(a),
                    ]);
                }
                let ghost pre = out@;
                let ghost av = alert_view(a);
                out.push(a);
                proof {
                    assert(views_of(out@) =~= views_of(pre).push(av));
                    assert(views_of(pre).push(av) =~= views_of(base) + apps_alerts(
                        upper@,
                        suite.app_types@.take(k as int + 1),
                        *company,
                    ));
                }
            },
            None => {
                proof {
                    assert(app_alerts(upper@, suite.app_types@[k as int], *company)
                        == Seq::<AlertView>::empty());
                    assert(views_of(out@) =~= views_of(base) + apps_alerts(
                        upper@,
                        suite.app_types@.take(k as int + 1),
                        *company,
                    ));
                }
            },
        }
    }
    proof {
        assert(suite.app_types@.take(n as int) =~= suite.app_types@);
    }
}

/// Evaluates one customer record: uppercases its name, finds the first
/// matching company, and collects the alerts of all its application types.
pub fn evaluate_record(companies: &Vec<Company>, record: &CustomerRecord) -> (r: Vec<AlertEvent>)
    ensures
        views_of(r@) == record_alerts(companies@, *record),
{
    let upper = to_upper(&record.customer_name);
    let mut out: Vec<AlertEvent> = Vec::new();
    proof {
        assert(views_of(out@) =~= Seq::<AlertView>::empty());
    }
    match match_in_upper(companies, &upper) {
        None => out,
        Some(ci) => {
            let company = &companies[ci];
            let n = record.suites.len();
            for s in 0..n
                invariant
                    n == record.suites@.len(),
                    ci < companies@.len(),
                    *company == companies@[ci as int],
                    first_match(companies@, upper@) == Some(ci as int),
                    upper@ == upper_of(record.customer_name@),
                    views_of(out@) == suites_alerts(
                        upper@,
                        record.suites@.take(s as int),
                        companies@[ci as int],
                    ),
            {
                proof {
                    assert(record.suites@.take(s as int + 1).drop_last() =~= record.suites@.take(
                        s as int,
                    ));
                    assert(record.suites@.take(s as int + 1).last() == record.suites@[s as int]);
                }
                let ghost pre = out@;
                let suite_ref = &record.suites[s];
                evaluate_suite(&upper, suite_ref, company, &mut out);
                proof {
                    assert(*suite_ref == record.suites@[s as int]);
                    assert(*company == companies@[ci as int]);
                    assert(views_of(out@) == views_of(pre) + apps_alerts(
                        upper@,
                        record.suites@[s as int].app_types@,
                        companies@[ci as int],
                    ));
                    assert(suites_alerts(
                        upper@,
                        record.suites@.take(s as int + 1),
                        companies@[ci as int],
                    ) == suites_alerts(upper@, record.suites@.take(s as int), companies@[
                        ci as int
                    ]) + apps_alerts(upper@, record.suites@[s as int].app_types@, companies@[
                        ci as int
                    ]));
                }
            }
            proof {
                assert(record.suites@.take(n as int) =~= record.suites@);
            }
            out
        },
    }
}

/// Evaluates a whole applications response against the configured company
/// list, collecting every alert in source order.
pub fn evaluate_records(companies: &Vec<Company>, records: &Vec<CustomerRecord>) -> (r: Vec<
    AlertEvent,
>)
    ensures
        views_of(r@) == records_alerts(companies@, records@),
{
    let mut out: Vec<AlertEvent> = Vec::new();
    proof {
        assert(views_of(out@) =~= Seq::<AlertView>::empty());
    }
    let n = records.len();
    for i in 0..n
        invariant
            n == records@.len(),
            views_of(out@) == records_alerts(companies@, records@.take(i as int)),
    {
        proof {
            assert(records@.take(i as int + 1).drop_last() =~= records@.take(i as int));
            assert(records@.take(i as int + 1).last() == records@[i as int]);
        }
        let mut part = evaluate_record(companies, &records[i]);
        let ghost prev = out@;
        let ghost partv = part@;
        out.append(&mut part);
        proof {
            assert(views_of(out@) =~= views_of(prev) + views_of(partv));
            assert(views_of(out@) =~= records_alerts(companies@, records@.take(i as int + 1)));
        }
    }
    proof {
        assert(records@.take(n as int) =~= records@);
    }
    out
}

} // verus!
