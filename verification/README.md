# shuli

A WiFi client (WPA2/WPA3 supplicant) and the daemon around it, verified with
Verus.

`src/` is the library. Every function in it but the small wrappers around other
crates has a contract that Verus proves: the frames and elements of IEEE 802.11,
the key hierarchies and the 4-way handshake, SAE, OWE, fast transition, EAP and
EAP-TLS, PMKSA caching, and the state machine of an interface. It decides; it
performs no I/O.

- `ieee80211` - authentication, EAPOL, RRM and WNM frames, information elements
- `crypto` - key derivation, 4-way handshake, SAE, OWE, fast transition, OCV
- `wpa3` - the minimal SAE and 4-way handshake states for one CCMP network
- `auth`, `eap`, `eap_tls`, `pmksa` - authentication methods and the PMKSA cache
- `scan`, `config` - what a scan found, what is configured
- `client` - one interface: authenticate, associate, handshake, scan, roam, back off
- `daemon` - configuration entries, IP settings, how the daemon's tasks end

Cryptographic primitives, the P-256 curve, TLS and the RSN element encoder come
from other crates. Each call stands behind a small function marked
`external_body`, whose comment says what is taken on trust.

`app/` is shulid, the daemon: it reads the configuration, talks to the kernel
over netlink, and performs what the library decides.

`tests/` runs the library on concrete values.
