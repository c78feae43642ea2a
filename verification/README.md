# platform

Cross-forge cascades and service discovery, verified with Verus.

- **Forges.** One contract for GitHub, GitLab and geetch (`forge`), a double that keeps it
  in memory (`testing`) with what holds of every course of calls on it (`history`), a
  conformance suite that any adapter can be run through (`conformance`), and proofs that
  the double passes it: by itself, pinned (`runtime`), and served and driven over the forge
  service (`wire`, `gateway`, `geetch`).
- **GitHub.** Every operation as a machine that asks and is answered (`github`): which
  requests are made, and what each answer leads to.
- **Provisioning.** The repository lifecycle (`provision`, `geetch_provisioner`) and its
  guarded form, in which a mutation names the revision that it expects (`guarded`,
  `guarded_geetch`), with a conformance suite (`guarded_conformance`) and an in-memory
  provisioner that passes it (`guarded_model`).
- **Discovery.** Services advertise capabilities in labels and annotations (`resolver`);
  groups name a query and an order (`groups`); the finder answers and watches (`registry`,
  `service`), and its client keeps the last known good set (`client`).

`text`, `table`, `search`, `sorting`, `json`, `status` and `messages` are what these stand
on. `app/` is the finder daemon with the parts that talk to Kubernetes, GitHub and geetch.

What is not proved is in three places: how a text is shown in quotes (`text::quoted`), how
JSON is read, taken apart and shown (`json`), and how bytes are written in base64, read
from it and read as text (`github`).
