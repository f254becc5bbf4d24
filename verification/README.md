# copiosis

Bookkeeping for a Copiosis community: members, the products they offer, and
transfers of products that move NBR (net benefit reward) from consumers to
producers.

- `src/` is the verified library (Verus): the flash notices in English and
  Czech (`notice`), the schema creation and upgrade plan (`schema`), the
  transfer decisions and the balance updates they make, with their model and
  laws (`ledger`), and the saving of products, offers and new members
  (`offers`).
- `app/` is the Rocket web server around it: routes, templates, the SQLite
  store, and the floating-point amounts (benefit formula, NBR and GNBR
  values), which the library leaves to it.
- `tests/` exercises the library on concrete values.
