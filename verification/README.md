# application

The application layer of the Captain.Food ordering platform, written in Verus: every command
decision, process-manager leg and in-memory store carries a `requires`/`ensures` contract that Verus
proves, and the properties that span several calls are stated as public proof functions (`law_*`).

## Layout

- `src/` — the verified library.
  - shared values and codecs: `text`, `errors`, `ports`, `model`, `journal`, `lanes`, `quota`;
  - the calls into outside crates (`sha2`, `hmac`, `hex`, `uuid`, `chrono`), each a trusted item
    with its contract: `outside`;
  - commands, by aggregate: `cart`, `checkout`, `orders`, `restaurants`, `catalogs`, `customers`,
    `conversations`, `reclamations`, `delivery_jobs`, `riders`, `prospects`, and the shared pieces in
    `commands`;
  - the checkout's command leg composed around its gateway call: `checkout_flow` (what is decided
    before the payment intent is requested, and what once the gateway answered);
  - process managers: `process_managers` (envelopes, actors, derived ids), `payment_legs`, `refunds`,
    `dispatch_strategy`, `delivery_dispatch`, `deliveries`, `cart_binding`;
  - stores and guards: `pm_state`, `mailbox`, `dispatch`, `auth_sessions`, `email_guard`, `pricing`,
    `read_models`.
- `tests/` — executable tests of the library on concrete values.
- `app/` — what stays outside the proofs: the RFC 3339 rendering of an instant, the hash of a JSON
  payload, and the two stock computations over fractional quantities.

Several legs are composed in the library around the outside call they make, which their caller
performs or hands in: the journaled dispatch of a command (`dispatch::dispatch_journaled`, around its
handler), the phone verification's session steps (`commands::verify_phone_leg`), the capture leg's
failure branch (`payment_legs::after_capture`) and the partner-rejection leg of the dispatch walk
(`delivery_dispatch::on_delivery_rejected_by_partner`).

Decisions that depend on the event-sourced aggregates' own folds (a category cycle, a life-cycle
transition, whether a fact is already recorded) take the aggregate's answer as an argument; the
library states exactly what follows from each answer.
