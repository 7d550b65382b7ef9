//! Prompt definitions: the built-in defaults seeded on first start, and
//! the reply payloads of the prompt methods.

use vstd::prelude::*;

use crate::json::{JVal, Json, jarr1, jobj1, jobj2, jobj3, jvals_of, jval_of,
    lemma_jvals_of_push};
use crate::registry::Prompt;
use vstd::string::StringExecFns;

verus! {

broadcast use {vstd::std_specs::vec::group_vec_axioms, vstd::seq::group_seq_axioms};

/// A built-in prompt definition.
#[derive(Debug, Clone)]
pub struct PromptDef {
    pub name: &'static str,
    pub description: &'static str,
    pub content: &'static str,
}

/// The text of the built-in catalogue of commonly used backend models.
pub open spec fn spec_common_models_content() -> Seq<char> {
    "\n# Common Odoo Models (v17-19)\n\n## Sales & CRM\n- sale.order - Sales Orders\n- sale.order.line - Sales Order Lines\n- crm.lead - CRM Leads/Opportunities\n- crm.team - Sales Teams\n\n## Accounting & Invoicing\n- account.move - Invoices & Bills\n- account.move.line - Invoice/Bill Lines\n- account.payment - Payments\n- account.journal - Journals\n- account.account - Chart of Accounts\n\n## Inventory & Manufacturing\n- stock.picking - Transfers\n- stock.move - Stock Moves\n- stock.warehouse - Warehouses\n- stock.location - Locations\n- product.product - Products (variants)\n- product.template - Product Templates\n\n## Partners & Contacts\n- res.partner - Contacts/Customers/Vendors\n- res.company - Companies\n- res.users - Users\n\n## HR & Employees\n- hr.employee - Employees\n- hr.department - Departments\n- hr.leave - Time Off\n\n## Projects & Tasks\n- project.project - Projects\n- project.task - Tasks\n\n## Purchase\n- purchase.order - Purchase Orders\n- purchase.order.line - Purchase Order Lines\n"@
}

/// The text of the built-in guide to domain filter syntax.
pub open spec fn spec_domain_filters_content() -> Seq<char> {
    "\n# Odoo Domain Filter Examples\n\n## Basic Operators\n- ['name', '=', 'John'] - Exact match\n- ['name', '!=', 'John'] - Not equal\n- ['age', '>', 18] - Greater than\n- ['age', '>=', 18] - Greater than or equal\n- ['age', '<', 65] - Less than\n- ['age', '<=', 65] - Less than or equal\n\n## String Operators\n- ['name', 'like', 'John'] - Contains (case-sensitive)\n- ['name', 'ilike', 'john'] - Contains (case-insensitive)\n- ['email', '=like', '%@example.com'] - Pattern match\n- ['name', '=ilike', 'john%'] - Pattern match (case-insensitive)\n\n## List Operators\n- ['state', 'in', ['draft', 'posted']] - In list\n- ['state', 'not in', ['cancel', 'draft']] - Not in list\n\n## Logical Operators\n- ['&', ['name', '=', 'John'], ['age', '>', 18]] - AND\n- ['|', ['name', '=', 'John'], ['name', '=', 'Jane']] - OR\n- ['!', ['state', '=', 'cancel']] - NOT\n\n## Complex Example\n[\n  '&',\n  ['state', '=', 'sale'],\n  '|',\n  ['amount_total', '>', 1000],\n  ['partner_id.country_id.code', '=', 'US']\n]\n"@
}

/// The built-in prompts that seed a missing prompts file: a catalogue of
/// commonly used backend models, and a guide to domain filter syntax.
pub fn default_prompts() -> (r: Vec<Prompt>)
    ensures
        r@.len() == 2,
        r@[0].name@ == "odoo_common_models"@,
        r@[0].description@ == "List of commonly used Odoo models"@,
        r@[0].content@ == spec_common_models_content(),
        r@[1].name@ == "odoo_domain_filters"@,
        r@[1].description@ == "Guide for Odoo domain filter syntax"@,
        r@[1].content@ == spec_domain_filters_content(),
{
    let first = PromptDef {
        name: "odoo_common_models",
        description: "List of commonly used Odoo models",
        content: "\n# Common Odoo Models (v17-19)\n\n## Sales & CRM\n- sale.order - Sales Orders\n- sale.order.line - Sales Order Lines\n- crm.lead - CRM Leads/Opportunities\n- crm.team - Sales Teams\n\n## Accounting & Invoicing\n- account.move - Invoices & Bills\n- account.move.line - Invoice/Bill Lines\n- account.payment - Payments\n- account.journal - Journals\n- account.account - Chart of Accounts\n\n## Inventory & Manufacturing\n- stock.picking - Transfers\n- stock.move - Stock Moves\n- stock.warehouse - Warehouses\n- stock.location - Locations\n- product.product - Products (variants)\n- product.template - Product Templates\n\n## Partners & Contacts\n- res.partner - Contacts/Customers/Vendors\n- res.company - Companies\n- res.users - Users\n\n## HR & Employees\n- hr.employee - Employees\n- hr.department - Departments\n- hr.leave - Time Off\n\n## Projects & Tasks\n- project.project - Projects\n- project.task - Tasks\n\n## Purchase\n- purchase.order - Purchase Orders\n- purchase.order.line - Purchase Order Lines\n",
    };
    let second = PromptDef {
        name: "odoo_domain_filters",
        description: "Guide for Odoo domain filter syntax",
        content: "\n# Odoo Domain Filter Examples\n\n## Basic Operators\n- ['name', '=', 'John'] - Exact match\n- ['name', '!=', 'John'] - Not equal\n- ['age', '>', 18] - Greater than\n- ['age', '>=', 18] - Greater than or equal\n- ['age', '<', 65] - Less than\n- ['age', '<=', 65] - Less than or equal\n\n## String Operators\n- ['name', 'like', 'John'] - Contains (case-sensitive)\n- ['name', 'ilike', 'john'] - Contains (case-insensitive)\n- ['email', '=like', '%@example.com'] - Pattern match\n- ['name', '=ilike', 'john%'] - Pattern match (case-insensitive)\n\n## List Operators\n- ['state', 'in', ['draft', 'posted']] - In list\n- ['state', 'not in', ['cancel', 'draft']] - Not in list\n\n## Logical Operators\n- ['&', ['name', '=', 'John'], ['age', '>', 18]] - AND\n- ['|', ['name', '=', 'John'], ['name', '=', 'Jane']] - OR\n- ['!', ['state', '=', 'cancel']] - NOT\n\n## Complex Example\n[\n  '&',\n  ['state', '=', 'sale'],\n  '|',\n  ['amount_total', '>', 1000],\n  ['partner_id.country_id.code', '=', 'US']\n]\n",
    };
    let mut out: Vec<Prompt> = Vec::new();
    out.push(
        Prompt {
            name: first.name.to_owned(),
            description: first.description.to_owned(),
            content: first.content.to_owned(),
        },
    );
    out.push(
        Prompt {
            name: second.name.to_owned(),
            description: second.description.to_owned(),
            content: second.content.to_owned(),
        },
    );
    out
}

/// The `prompts/list` reply: name and description of each prompt, in
/// order.
pub open spec fn spec_prompt_summaries(ps: Seq<(Seq<char>, Seq<char>)>) -> Seq<JVal>
    decreases ps,
{
    if ps.len() == 0 {
        Seq::empty()
    } else {
        spec_prompt_summaries(ps.drop_last()).push(
            JVal::Obj(
                seq![
                    ("name"@, JVal::Str(ps.last().0)),
                    ("description"@, JVal::Str(ps.last().1)),
                ],
            ),
        )
    }
}

pub open spec fn spec_list_prompts_result(ps: Seq<(Seq<char>, Seq<char>)>) -> JVal {
    JVal::Obj(seq![("prompts"@, JVal::Arr(spec_prompt_summaries(ps)))])
}

pub fn list_prompts_result(prompts: &Vec<(String, String)>) -> (r: Json)
    ensures
        r@ == spec_list_prompts_result(
            prompts@.map(|i: int, p: (String, String)| (p.0@, p.1@)),
        ),
{
    let ghost pv = prompts@.map(|i: int, p: (String, String)| (p.0@, p.1@));
    let n = prompts.len();
    let mut items: Vec<Json> = Vec::new();
    let mut i: usize = 0;
    while i < n
        invariant
            i <= n,
            n == prompts@.len(),
            pv == prompts@.map(|k: int, p: (String, String)| (p.0@, p.1@)),
            pv.len() == n,
            jvals_of(items@) == spec_prompt_summaries(pv.take(i as int)),
        decreases n - i,
    {
        let s = jobj2(
            "name",
            Json::Str(prompts[i].0.clone()),
            "description",
            Json::Str(prompts[i].1.clone()),
        );
        let ghost prev = items@;
        items.push(s);
        proof {
            lemma_jvals_of_push(prev, items@.last());
            assert(pv.take(i + 1).drop_last() =~= pv.take(i as int));
            assert(pv.take(i + 1).last() == pv[i as int]);
            assert(pv[i as int] == (prompts@[i as int].0@, prompts@[i as int].1@));
        }
        i += 1;
    }
    proof {
        assert(pv.take(n as int) =~= pv);
    }
    jobj1("prompts", Json::Arr(items))
}

/// The `prompts/get` reply: the description and one user message that
/// carries the prompt's content.
pub open spec fn spec_get_prompt_result(description: Seq<char>, content: Seq<char>) -> JVal {
    JVal::Obj(
        seq![
            ("description"@, JVal::Str(description)),
            ("messages"@, JVal::Arr(
                seq![
                    JVal::Obj(
                        seq![
                            ("role"@, JVal::Str("user"@)),
                            ("content"@, JVal::Obj(
                                seq![
                                    ("type"@, JVal::Str("text"@)),
                                    ("text"@, JVal::Str(content)),
                                ],
                            )),
                        ],
                    ),
                ],
            )),
        ],
    )
}

pub fn get_prompt_result(prompt: &Prompt) -> (r: Json)
    ensures
        r@ == spec_get_prompt_result(prompt.description@, prompt.content@),
{
    let content_obj = jobj2(
        "type",
        Json::Str("text".to_owned()),
        "text",
        Json::Str(prompt.content.clone()),
    );
    let message = jobj2("role", Json::Str("user".to_owned()), "content", content_obj);
    jobj2(
        "description",
        Json::Str(prompt.description.clone()),
        "messages",
        jarr1(message),
    )
}

} // verus!
